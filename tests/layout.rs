use circular_binary_tree::drawing::{Anchor, Angle, LayoutError, Segment};
use circular_binary_tree::position::Position;
use circular_binary_tree::tree::{create_content, heap_index, two_pow, CircularBinaryTree};

fn tree(num_segments: u32, start_angle: i64, end_angle: i64) -> CircularBinaryTree {
    CircularBinaryTree {
        center: Position::new(100_000, 0, 100_000),
        segment_width: 10_000,
        segment_width_multiplier: 1000,
        num_segments,
        line_width: 1000,
        start_angle,
        end_angle,
        text_x_offset: 0,
        initial_text_y_offset: 0,
        text_y_modifier: 0,
        font_family: "Times New Roman".to_string(),
        initial_font_size: 16_000,
        font_size_modifier: 0,
    }
}

fn content_of(n: usize) -> Vec<String> {
    (1..=n).map(|k| k.to_string()).collect()
}

#[test]
fn segment_count_is_one_per_inner_node() {
    for n in 0..=8u32 {
        let t = tree(n, 0, 180_000);
        assert_eq!(t.generate_segments().len(), (1usize << n) - 1);
    }
}

#[test]
fn sector_count_is_one_per_ring() {
    for n in 0..=8u32 {
        let t = tree(n, 0, 180_000);
        let sectors = t.generate_sectors();
        assert_eq!(sectors.len(), n as usize + 1);
        for (d, s) in sectors.iter().enumerate() {
            assert_eq!(s.depth as usize, d);
            assert_eq!(s.radius, d as i64 * 10_000 * 1000);
        }
    }
}

#[test]
fn label_count_and_content_mapping() {
    for n in 1..=8u32 {
        let t = tree(n, 0, 180_000);
        let len = (1usize << (n + 1)) - 2;
        let content = content_of(len);
        let labels = t.generate_labels(&content).unwrap();
        assert_eq!(labels.len(), len);
        for (k, l) in labels.iter().enumerate() {
            assert_eq!(l.content_index, k);
            assert_eq!(l.text, content[k]);
        }
    }
}

#[test]
fn long_way_at_half_circle() {
    let t = tree(2, 0, 180_000);
    assert!(t.generate_sectors().iter().all(|s| s.long_way));
}

#[test]
fn long_way_threshold_boundary() {
    assert!(!tree(2, 0, 135_000).generate_sectors()[0].long_way);
    assert!(tree(2, 0, 135_001).generate_sectors()[0].long_way);
    assert!(!tree(2, 0, 134_999).generate_sectors()[0].long_way);
    assert!(!tree(2, 135_000, 0).generate_sectors()[1].long_way);
    assert!(tree(2, 135_001, 0).generate_sectors()[1].long_way);
}

#[test]
fn output_frame_round_trip() {
    for &(x, y, h) in &[(0, 0, 0), (3, 7, 10), (-5, 12, 4), (1_000, -2_000, 500)] {
        let p = Position::new(x, y, h);
        assert_eq!(p.to_output_inverse().to_output(), p);
        assert_eq!(p.to_output().to_output_inverse(), p);
    }
    let p = Position::new(3, 7, 10).to_output();
    assert_eq!((p.x, p.y, p.height), (3, 3, 10));
}

#[test]
fn depth_two_half_circle_scenario() {
    let t = tree(2, 0, 180_000);
    let content = content_of(6);
    let groups = t.compute_layout(&content).unwrap();
    assert_eq!(groups.segments.len(), 3);
    assert_eq!(groups.sectors.len(), 3);
    assert_eq!(groups.labels.len(), 6);

    let first = &groups.labels[0];
    assert_eq!((first.depth, first.sibling), (1, 0));
    assert_eq!(first.text, "1");
    assert_eq!(first.angle, Angle { num: 0, den: 2 });
    assert_eq!(first.anchor, Anchor::End);
    assert_eq!(first.rotation, Angle { num: 720_000, den: 2 });
    assert_eq!(first.distance_from_center, 10_000_000);

    let crossing = &groups.labels[1];
    assert_eq!((crossing.depth, crossing.sibling), (1, 1));
    assert_eq!(crossing.anchor, Anchor::Start);
    assert_eq!(crossing.angle, Angle { num: 720_000, den: 2 });
    assert_eq!(crossing.rotation, Angle { num: 0, den: 2 });
    assert_eq!(crossing.distance_from_center, -10_000_000);

    let anchors: Vec<Anchor> = groups.labels[2..].iter().map(|l| l.anchor).collect();
    assert_eq!(anchors, vec![Anchor::End, Anchor::End, Anchor::Start, Anchor::Start]);
    let angles: Vec<Angle> = groups.labels[2..].iter().map(|l| l.angle).collect();
    assert_eq!(
        angles,
        vec![
            Angle { num: 0, den: 4 },
            Angle { num: 180_000, den: 4 },
            Angle { num: 1_260_000, den: 4 },
            Angle { num: 1_440_000, den: 4 },
        ]
    );
}

#[test]
fn segments_in_pre_order() {
    let t = tree(2, 0, 180_000);
    let segments = t.generate_segments();
    assert_eq!(
        segments,
        vec![
            Segment {
                depth: 0,
                sibling: 0,
                angle: Angle { num: 180_000, den: 2 },
                distance_from_center: 0,
                length: 20_000_000,
            },
            Segment {
                depth: 1,
                sibling: 0,
                angle: Angle { num: 180_000, den: 4 },
                distance_from_center: 10_000_000,
                length: 10_000_000,
            },
            Segment {
                depth: 1,
                sibling: 1,
                angle: Angle { num: 540_000, den: 4 },
                distance_from_center: 10_000_000,
                length: 10_000_000,
            },
        ]
    );
}

#[test]
fn content_size_mismatch() {
    let t = tree(2, 0, 180_000);
    assert_eq!(t.compute_layout(&content_of(5)), Err(LayoutError::ContentSizeMismatch));
    assert_eq!(t.generate_labels(&content_of(7)), Err(LayoutError::ContentSizeMismatch));
}

#[test]
fn layout_is_idempotent() {
    let mut t = tree(4, 0, 180_000);
    t.text_x_offset = -10_000;
    t.initial_text_y_offset = 80_000;
    t.text_y_modifier = 125;
    t.font_size_modifier = 100;
    let content = content_of(30);
    assert_eq!(t.compute_layout(&content), t.compute_layout(&content));
}

#[test]
fn label_offsets_and_font_sizes() {
    let mut t = tree(2, 0, 180_000);
    t.text_x_offset = -10_000;
    t.initial_text_y_offset = 80_000;
    t.text_y_modifier = 125;
    t.font_size_modifier = 100;
    let labels = t.generate_labels(&content_of(6)).unwrap();
    assert_eq!(labels[0].y_offset, 80_000 - 250);
    assert_eq!(labels[0].font_size, 16_000 - 200);
    assert_eq!(labels[0].distance_from_center, 10_000_000 - 10_000_000);
    assert_eq!(labels[2].y_offset, 80_000 - 500);
    assert_eq!(labels[2].font_size, 16_000 - 400);
    assert_eq!(labels[2].distance_from_center, 20_000_000 - 10_000_000);
    assert_eq!(labels[5].distance_from_center, -(20_000_000 - 10_000_000));
}

#[test]
fn heap_index_matches_breadth_first_order() {
    assert_eq!(heap_index(1, 0), 0);
    assert_eq!(heap_index(1, 1), 1);
    assert_eq!(heap_index(2, 0), 2);
    assert_eq!(heap_index(3, 7), 13);
    assert_eq!(two_pow(0), 1);
    assert_eq!(two_pow(10), 1024);
}

#[test]
fn default_content_numbers_nodes() {
    assert_eq!(create_content(0), Vec::<u64>::new());
    assert_eq!(create_content(2), vec![1, 2, 3, 4, 5, 6]);
    assert_eq!(create_content(3).len(), 14);
}

fn new_tree(segment_width: i64, num_segments: u32, font: i64, font_mod: i64) -> Result<CircularBinaryTree, LayoutError> {
    CircularBinaryTree::new(
        Position::new(0, 0, 100),
        segment_width,
        1000,
        num_segments,
        1000,
        0,
        180_000,
        0,
        0,
        0,
        "serif".to_string(),
        font,
        font_mod,
    )
}

#[test]
fn invalid_configurations() {
    assert!(new_tree(10_000, 3, 16_000, 100).is_ok());
    assert_eq!(new_tree(0, 3, 16_000, 100).unwrap_err(), LayoutError::InvalidConfiguration);
    assert_eq!(new_tree(-5, 3, 16_000, 100).unwrap_err(), LayoutError::InvalidConfiguration);
    assert_eq!(new_tree(10_000, 0, 16_000, 100).unwrap_err(), LayoutError::InvalidConfiguration);
    assert_eq!(new_tree(10_000, 31, 16_000, 0).unwrap_err(), LayoutError::InvalidConfiguration);
    // 16 - 2 * 8 == 0 at depth 3
    assert_eq!(new_tree(10_000, 3, 16_000, 2_000).unwrap_err(), LayoutError::InvalidConfiguration);
    assert!(new_tree(10_000, 2, 16_000, 2_000).is_ok());
}

#[test]
fn page_tree_for_a4_landscape() {
    let t = CircularBinaryTree::for_page(
        297_000, 210_000, 10_000, 4, 1000, 10_000, 80_000, 125, "serif".to_string(), 16_000, 100,
    )
    .unwrap();
    assert_eq!(t.center, Position::new(148_500, 10_000, 210_000));
    assert_eq!(t.segment_width, (148_500 - 10_000) / 4);
    assert_eq!(t.segment_width_multiplier, 1000);
    assert_eq!((t.start_angle, t.end_angle), (0, 180_000));
    assert_eq!(t.text_x_offset, -10_000);
    let bad = CircularBinaryTree::for_page(
        297_000, 210_000, 200_000, 4, 1000, 0, 0, 0, "serif".to_string(), 16_000, 0,
    );
    assert_eq!(bad.unwrap_err(), LayoutError::InvalidConfiguration);
}

#[test]
fn position_arithmetic() {
    let a = Position::new(1, 2, 10);
    let b = Position::new(3, -4, 10);
    assert_eq!(a.add(b), Position::new(4, -2, 10));
    assert_eq!(a.mul(3), Position::new(3, 6, 10));
    assert_eq!(a.x(), 1);
    assert_eq!(a.y(), 8);
}
