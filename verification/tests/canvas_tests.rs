use blackboard::Canvas;
use blackboard::Orientation;
use blackboard::Point;
use blackboard::display_form;

fn stroke(points: &[(i32, i32)]) -> Vec<Point> {
    points.iter().map(|&(x, y)| Point { x, y }).collect()
}

#[test]
fn empty_stroke_is_rejected() {
    let mut c = Canvas::new();
    let committed = c.commit_stroke(Vec::new());
    assert!(!committed);
    assert_eq!(c.strokes.len(), 0);
}

#[test]
fn committed_strokes_keep_draw_order() {
    let mut c = Canvas::new();
    assert!(c.commit_stroke(stroke(&[(0, 0), (1, 1)])));
    assert!(c.commit_stroke(stroke(&[(5, 5)])));
    assert_eq!(c.strokes.len(), 2);
    assert_eq!(c.strokes[0], stroke(&[(0, 0), (1, 1)]));
    assert_eq!(c.strokes[1], stroke(&[(5, 5)]));
}

#[test]
fn erase_removes_stroke_through_disk() {
    // Draw a stroke through (0,0) -> (10,0) -> (20,0) and erase near (10,0)
    // with radius 5: the sample point (10,0) is within radius 5 of itself,
    // so the whole stroke goes.
    let mut c = Canvas::new();
    assert!(c.commit_stroke(stroke(&[(0, 0), (10, 0), (20, 0)])));
    c.erase_near(Point { x: 10, y: 0 }, 5);
    assert_eq!(c.strokes.len(), 0);
}

#[test]
fn erase_far_away_keeps_stroke() {
    let mut c = Canvas::new();
    assert!(c.commit_stroke(stroke(&[(0, 0), (10, 0), (20, 0)])));
    c.erase_near(Point { x: 100, y: 100 }, 5);
    assert_eq!(c.strokes.len(), 1);
    assert_eq!(c.strokes[0], stroke(&[(0, 0), (10, 0), (20, 0)]));
}

#[test]
fn erase_removes_exactly_strokes_meeting_disk() {
    let mut c = Canvas::new();
    assert!(c.commit_stroke(stroke(&[(0, 0), (3, 0)])));
    assert!(c.commit_stroke(stroke(&[(50, 50), (60, 60)])));
    assert!(c.commit_stroke(stroke(&[(100, 100), (2, 1)])));
    c.erase_near(Point { x: 0, y: 0 }, 10);
    // The first and third strokes each have a point inside the open disk of
    // radius 10 around the origin; the second has none.
    assert_eq!(c.strokes.len(), 1);
    assert_eq!(c.strokes[0], stroke(&[(50, 50), (60, 60)]));
}

#[test]
fn stroke_point_on_boundary_is_not_erased() {
    // Distance exactly the radius: strictly-inside comparison keeps it.
    let mut c = Canvas::new();
    assert!(c.commit_stroke(stroke(&[(5, 0)])));
    c.erase_near(Point { x: 0, y: 0 }, 5);
    assert_eq!(c.strokes.len(), 1);
}

#[test]
fn annotation_on_boundary_is_retained() {
    let mut c = Canvas::new();
    let text = String::from("note");
    let font = Some(String::from("Sans"));
    assert!(c.place_annotation(Point { x: 5, y: 0 }, &text, 12, Orientation::Horizontal, &font));
    c.erase_near(Point { x: 0, y: 0 }, 5);
    assert_eq!(c.annotations.len(), 1);
}

#[test]
fn annotation_inside_disk_is_erased() {
    let mut c = Canvas::new();
    let text = String::from("note");
    let font = Some(String::from("Sans"));
    assert!(c.place_annotation(Point { x: 4, y: 0 }, &text, 12, Orientation::Horizontal, &font));
    assert!(c.place_annotation(Point { x: 9, y: 0 }, &text, 12, Orientation::Horizontal, &font));
    c.erase_near(Point { x: 0, y: 0 }, 5);
    // Anchor at distance 4 goes; anchor at distance 9 stays.
    assert_eq!(c.annotations.len(), 1);
    assert_eq!(c.annotations[0].anchor, Point { x: 9, y: 0 });
}

#[test]
fn place_rejects_empty_text() {
    let mut c = Canvas::new();
    let text = String::new();
    let font = Some(String::from("Sans"));
    assert!(!c.place_annotation(Point { x: 0, y: 0 }, &text, 12, Orientation::Horizontal, &font));
    assert_eq!(c.annotations.len(), 0);
}

#[test]
fn place_rejects_unresolved_font() {
    let mut c = Canvas::new();
    let text = String::from("note");
    let font: Option<String> = None;
    assert!(!c.place_annotation(Point { x: 0, y: 0 }, &text, 12, Orientation::Horizontal, &font));
    assert_eq!(c.annotations.len(), 0);
}

#[test]
fn placed_annotation_keeps_configuration() {
    let mut c = Canvas::new();
    let text = String::from("hello");
    let font = Some(String::from("Serif"));
    assert!(c.place_annotation(Point { x: 7, y: 8 }, &text, 33, Orientation::Vertical, &font));
    assert_eq!(c.annotations.len(), 1);
    let a = &c.annotations[0];
    assert_eq!(a.anchor, Point { x: 7, y: 8 });
    assert_eq!(a.text, "hello");
    assert_eq!(a.size, 33);
    assert_eq!(a.orientation, Orientation::Vertical);
    assert_eq!(a.font, "Serif");
}

#[test]
fn clear_empties_both_sequences() {
    let mut c = Canvas::new();
    assert!(c.commit_stroke(stroke(&[(1, 2)])));
    let text = String::from("x");
    let font = Some(String::from("Sans"));
    assert!(c.place_annotation(Point { x: 0, y: 0 }, &text, 10, Orientation::Horizontal, &font));
    c.clear();
    assert_eq!(c.strokes.len(), 0);
    assert_eq!(c.annotations.len(), 0);
}

#[test]
fn snapshot_copies_whole_canvas() {
    let mut c = Canvas::new();
    assert!(c.commit_stroke(stroke(&[(1, 2), (3, 4)])));
    let text = String::from("x");
    let font = Some(String::from("Sans"));
    assert!(c.place_annotation(Point { x: 9, y: 9 }, &text, 10, Orientation::Horizontal, &font));
    let snap = c.snapshot();
    assert_eq!(snap.strokes, c.strokes);
    assert_eq!(snap.annotations.len(), 1);
    assert_eq!(snap.annotations[0].anchor, Point { x: 9, y: 9 });
    assert_eq!(snap.annotations[0].text, "x");
}

#[test]
fn vertical_text_breaks_between_characters() {
    assert_eq!(display_form("AB", Orientation::Vertical), "A\nB");
}

#[test]
fn horizontal_text_is_unchanged() {
    assert_eq!(display_form("AB", Orientation::Horizontal), "AB");
}

#[test]
fn vertical_single_character_has_no_break() {
    assert_eq!(display_form("A", Orientation::Vertical), "A");
}

#[test]
fn vertical_longer_text() {
    assert_eq!(display_form("abcd", Orientation::Vertical), "a\nb\nc\nd");
}

#[test]
fn annotation_display_text_uses_orientation() {
    let mut c = Canvas::new();
    let text = String::from("AB");
    let font = Some(String::from("Sans"));
    assert!(c.place_annotation(Point { x: 0, y: 0 }, &text, 10, Orientation::Vertical, &font));
    assert_eq!(c.annotations[0].display_text(), "A\nB");
}
