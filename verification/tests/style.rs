use eng_session::style::{Style, StyleMap};

#[test]
fn test_style_map_insert() {
    let mut map = StyleMap::new();
    let style = Style { color: 0xFF0000, bold: true, italic: false };
    map.add_span(5..10, style);

    map.on_insert(0, 1);
    assert_eq!(map.get_spans()[0].range, 6..11);

    map.on_insert(7, 2);
    assert_eq!(map.get_spans()[0].range, 6..13);
}

#[test]
fn test_style_map_delete() {
    let mut map = StyleMap::new();
    let style = Style { color: 0x00FF00, bold: false, italic: true };
    map.add_span(10..20, style);

    map.on_delete(0..5);
    assert_eq!(map.get_spans()[0].range, 5..15);

    map.on_delete(10..15);
    assert_eq!(map.get_spans()[0].range, 5..10);
}

fn ranges(map: &StyleMap) -> Vec<std::ops::Range<usize>> {
    map.get_spans().iter().map(|s| s.range.clone()).collect()
}

fn map_of(spans: &[std::ops::Range<usize>]) -> StyleMap {
    let mut map = StyleMap::new();
    for (i, r) in spans.iter().enumerate() {
        map.add_span(r.clone(), Style { color: i as u32, bold: false, italic: false });
    }
    map
}

#[test]
fn insert_moves_only_what_lies_at_or_behind_it() {
    let mut map = map_of(&[0..3, 3..6, 6..9]);
    map.on_insert(3, 10);
    // at the end of the first span: unchanged; at the start of the second: moved
    assert_eq!(ranges(&map), vec![0..3, 13..16, 16..19]);
    map.on_insert(14, 1);
    assert_eq!(ranges(&map), vec![0..3, 13..17, 17..20]);
    map.on_insert(100, 5);
    assert_eq!(ranges(&map), vec![0..3, 13..17, 17..20]);
    map.on_insert(0, 0);
    assert_eq!(ranges(&map), vec![0..3, 13..17, 17..20]);
}

#[test]
fn insert_keeps_styles_and_order() {
    let mut map = map_of(&[5..6, 1..2]);
    map.on_insert(0, 1);
    let colors: Vec<u32> = map.get_spans().iter().map(|s| s.style.color).collect();
    assert_eq!(colors, vec![0, 1]);
    assert_eq!(ranges(&map), vec![6..7, 2..3]);
}

#[test]
fn delete_handles_every_position_of_a_span() {
    // deleted stretch: 10..20
    let mut map = map_of(&[0..5, 5..10, 20..25, 30..40, 5..15, 15..25, 12..18, 10..20, 5..25]);
    map.on_delete(10..20);
    assert_eq!(
        ranges(&map),
        vec![0..5, 5..10, 10..15, 20..30, 5..10, 10..15, 5..15]
    );
    let colors: Vec<u32> = map.get_spans().iter().map(|s| s.style.color).collect();
    assert_eq!(colors, vec![0, 1, 2, 3, 4, 5, 8]);
}

#[test]
fn delete_of_nothing_changes_nothing() {
    let mut map = map_of(&[0..5, 5..5, 7..9]);
    map.on_delete(5..5);
    assert_eq!(ranges(&map), vec![0..5, 5..5, 7..9]);
}

#[test]
fn empty_spans_inside_the_stretch_go() {
    let mut map = map_of(&[3..3, 5..5, 6..6, 8..8]);
    map.on_delete(4..7);
    assert_eq!(ranges(&map), vec![3..3, 5..5]);
}

#[test]
fn clone_and_default() {
    let map = map_of(&[1..2, 3..4]);
    let copy = map.clone();
    assert_eq!(ranges(&copy), vec![1..2, 3..4]);
    assert!(StyleMap::default().get_spans().is_empty());
    let span = map.get_spans()[1].clone();
    assert_eq!(span.range, 3..4);
    assert_eq!(span.style, Style { color: 1, bold: false, italic: false });
}
