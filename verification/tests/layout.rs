use neenee_code::interaction::{classify_click, summary_at, ClickTarget, StepKind};
use neenee_code::layout::{
    BlockRegion, InteractiveTarget, LayoutMap, Rect, SemanticCursor, TableCellHit,
    TableCellSegment, INPUT_MSG_IDX, THINKING_BLOCK_IDX, TOOL_STEP_BLOCK_IDX,
};

fn region(text: &str, start_byte: usize, prefix_cols: u16, rect: Rect) -> BlockRegion {
    BlockRegion {
        message_idx: 0,
        block_idx: 0,
        start_byte,
        end_byte: start_byte + text.len(),
        text: text.to_string(),
        prefix_cols,
        rect,
        hidden_ranges: Vec::new(),
    }
}

fn push_region(map: &mut LayoutMap, text: &str, msg_idx: usize, block_idx: usize, y: u16) {
    map.push(BlockRegion {
        message_idx: msg_idx,
        block_idx,
        start_byte: 0,
        end_byte: text.len(),
        text: text.to_string(),
        prefix_cols: 0,
        rect: Rect::new(0, y, text.len() as u16, 1),
        hidden_ranges: Vec::new(),
    });
}

fn cell(message_idx: usize, block_idx: usize, cell_idx: usize, rect: Rect, text: &str) -> TableCellHit {
    TableCellHit {
        message_idx,
        block_idx,
        cell_idx,
        rect,
        cell_text: text.to_string(),
        segment: TableCellSegment {
            rendered_range: (0, 0),
            content_range: (0, 0),
            source_range: (0, 0),
        },
    }
}

#[test]
fn test_cursor_at_basic() {
    let mut map = LayoutMap::new();
    map.push(region("hello", 0, 0, Rect::new(0, 0, 10, 1)));

    let cursor = map.cursor_at(2, 0).unwrap();
    assert_eq!(cursor.message_idx, 0);
    assert_eq!(cursor.block_idx, 0);
    assert_eq!(cursor.byte_offset, 2);
}

#[test]
fn test_cursor_at_miss() {
    let map = LayoutMap::new();
    assert!(map.cursor_at(0, 0).is_none());
}

#[test]
fn cursor_at_subtracts_prefix_columns() {
    let mut map = LayoutMap::new();
    map.push(region("hello", 0, 3, Rect::new(0, 0, 20, 1)));

    assert_eq!(map.cursor_at(3, 0).unwrap().byte_offset, 0);
    assert_eq!(map.cursor_at(5, 0).unwrap().byte_offset, 2);
    assert_eq!(map.cursor_at(1, 0).unwrap().byte_offset, 0);
}

#[test]
fn cursor_at_handles_wide_and_multibyte_chars() {
    let mut map = LayoutMap::new();
    map.push(region("😀😃a", 0, 0, Rect::new(0, 0, 20, 1)));

    assert_eq!(map.cursor_at(0, 0).unwrap().byte_offset, 0);
    assert_eq!(map.cursor_at(1, 0).unwrap().byte_offset, 1);
    assert_eq!(map.cursor_at(2, 0).unwrap().byte_offset, 4);
    assert_eq!(map.cursor_at(3, 0).unwrap().byte_offset, 5);
    assert_eq!(map.cursor_at(4, 0).unwrap().byte_offset, 8);
    assert_eq!(map.cursor_at(15, 0).unwrap().byte_offset, 9);
}

#[test]
fn cursor_at_respects_wrapped_line_offsets() {
    let mut map = LayoutMap::new();
    map.push(region("world", 10, 3, Rect::new(0, 4, 20, 1)));

    assert_eq!(map.cursor_at(4, 4).unwrap().byte_offset, 11);
}

#[test]
fn interactive_targets_are_visible_ordered_and_deduplicated() {
    let mut map = LayoutMap::new();
    for (message_idx, block_idx, y) in [
        (2, TOOL_STEP_BLOCK_IDX, 5),
        (2, TOOL_STEP_BLOCK_IDX, 6),
        (3, THINKING_BLOCK_IDX, 7),
    ] {
        map.push(BlockRegion {
            message_idx,
            block_idx,
            start_byte: 0,
            end_byte: 0,
            text: String::new(),
            prefix_cols: 0,
            rect: Rect::new(0, y, 10, 1),
            hidden_ranges: Vec::new(),
        });
    }

    assert_eq!(
        map.interactive_targets(),
        vec![
            InteractiveTarget::tool_step(2),
            InteractiveTarget::thinking(3)
        ]
    );
}

#[test]
fn targets_follow_the_screen_not_the_recording() {
    let mut map = LayoutMap::new();
    push_region(&mut map, "below", 7, TOOL_STEP_BLOCK_IDX, 9);
    push_region(&mut map, "plain", 8, 0, 1);
    push_region(&mut map, "above", 5, THINKING_BLOCK_IDX, 2);
    assert_eq!(
        map.interactive_targets(),
        vec![
            InteractiveTarget::thinking(5),
            InteractiveTarget::tool_step(7)
        ]
    );
}

#[test]
fn hidden_ranges_take_no_columns() {
    let mut map = LayoutMap::new();
    let mut bold = region("**ab**", 0, 0, Rect::new(0, 0, 10, 1));
    bold.hidden_ranges = vec![(0, 2), (4, 6)];
    map.push(bold);
    assert_eq!(map.cursor_at(0, 0).unwrap().byte_offset, 2);
    assert_eq!(map.cursor_at(1, 0).unwrap().byte_offset, 3);
    assert_eq!(map.cursor_at(2, 0).unwrap().byte_offset, 6);
}

#[test]
fn combining_marks_belong_to_one_cluster() {
    let mut map = LayoutMap::new();
    map.push(region("e\u{301}x", 0, 0, Rect::new(0, 0, 10, 1)));
    assert_eq!(map.cursor_at(0, 0).unwrap().byte_offset, 0);
    assert_eq!(map.cursor_at(1, 0).unwrap().byte_offset, 3);
}

#[test]
fn the_first_recorded_region_wins() {
    let mut map = LayoutMap::new();
    push_region(&mut map, "first", 1, 0, 0);
    push_region(&mut map, "second", 2, 0, 0);
    assert_eq!(map.region_at(2, 0).unwrap().message_idx, 1);
    assert_eq!(map.region_at(5, 0).unwrap().message_idx, 2);
    assert!(map.region_at(6, 0).is_none());
}

#[test]
fn rect_excludes_its_far_edges() {
    let rect = Rect::new(2, 3, 4, 1);
    assert!(rect.contains(2, 3));
    assert!(rect.contains(5, 3));
    assert!(!rect.contains(6, 3));
    assert!(!rect.contains(2, 4));
    assert!(!rect.contains(1, 3));
}

#[test]
fn table_grid_keeps_the_latest_text() {
    let mut map = LayoutMap::new();
    assert_eq!(map.table_grid(1, 2), None);
    map.record_table_grid(1, 2, "old".to_string());
    map.record_table_grid(3, 4, "other".to_string());
    map.record_table_grid(1, 2, "new".to_string());
    assert_eq!(map.table_grid(1, 2), Some("new"));
    assert_eq!(map.table_grid(3, 4), Some("other"));
}

#[test]
fn cell_segments_are_those_of_the_cell() {
    let mut map = LayoutMap::new();
    let mut first = cell(0, 0, 1, Rect::new(0, 0, 3, 1), "one");
    first.segment.content_range = (1, 4);
    let mut second = cell(0, 0, 1, Rect::new(0, 1, 3, 1), "one");
    second.segment.content_range = (9, 12);
    map.push_table_cell_hit(first);
    map.push_table_cell_hit(cell(0, 0, 2, Rect::new(4, 0, 3, 1), "two"));
    map.push_table_cell_hit(second);
    let ranges: Vec<(usize, usize)> = map
        .table_cell_segments(0, 0, 1)
        .iter()
        .map(|s| s.content_range)
        .collect();
    assert_eq!(ranges, vec![(1, 4), (9, 12)]);
    assert_eq!(map.table_cell_at(5, 0).unwrap().cell_text, "two");
    assert!(map.table_cell_at(3, 0).is_none());
}

#[test]
fn dead_when_no_regions() {
    let map = LayoutMap::new();
    assert_eq!(classify_click(&map, 5, 5), ClickTarget::Dead);
}

#[test]
fn content_when_region_hit() {
    let mut map = LayoutMap::new();
    push_region(&mut map, "hello", 0, 0, 0);
    assert_eq!(
        classify_click(&map, 2, 0),
        ClickTarget::Content {
            cursor: SemanticCursor::new(0, 0, 2)
        }
    );
}

#[test]
fn input_box_when_msg_idx_is_input_sentinel() {
    let mut map = LayoutMap::new();
    push_region(&mut map, "prompt text", INPUT_MSG_IDX, 0, 0);
    assert!(matches!(
        classify_click(&map, 2, 0),
        ClickTarget::InputBox { .. }
    ));
}

#[test]
fn step_summary_when_block_idx_is_sentinel() {
    let mut map = LayoutMap::new();
    push_region(&mut map, "[bash] $ echo hi", 3, TOOL_STEP_BLOCK_IDX, 5);
    assert_eq!(
        classify_click(&map, 2, 5),
        ClickTarget::StepSummary {
            message_idx: 3,
            kind: StepKind::ToolStep,
        }
    );
}

#[test]
fn table_cell_when_hit_box_matches() {
    let mut map = LayoutMap::new();
    push_region(&mut map, "│ hello │ world │", 1, 2, 3);
    map.push_table_cell_hit(TableCellHit {
        message_idx: 1,
        block_idx: 2,
        cell_idx: 0,
        rect: Rect::new(3, 3, 5, 1),
        cell_text: "hello".into(),
        segment: TableCellSegment {
            rendered_range: (2, 7),
            content_range: (2, 7),
            source_range: (0, 5),
        },
    });
    let result = classify_click(&map, 5, 3);
    assert!(matches!(
        result,
        ClickTarget::TableCell {
            message_idx: 1,
            block_idx: 2,
            cell_idx: 0,
            ..
        }
    ));
}

#[test]
fn priority_input_box_beats_step_summary() {
    let mut map = LayoutMap::new();
    push_region(&mut map, "x", INPUT_MSG_IDX, TOOL_STEP_BLOCK_IDX, 0);
    assert!(matches!(
        classify_click(&map, 0, 0),
        ClickTarget::InputBox { .. }
    ));
}

#[test]
fn priority_step_summary_beats_table_cell() {
    let mut map = LayoutMap::new();
    push_region(&mut map, "step", 0, TOOL_STEP_BLOCK_IDX, 0);
    map.push_table_cell_hit(TableCellHit {
        message_idx: 0,
        block_idx: TOOL_STEP_BLOCK_IDX,
        cell_idx: 0,
        cell_text: String::new(),
        segment: TableCellSegment {
            rendered_range: (0, 0),
            content_range: (0, 0),
            source_range: (0, 0),
        },
        rect: Rect::new(0, 0, 4, 1),
    });
    assert!(matches!(
        classify_click(&map, 2, 0),
        ClickTarget::StepSummary { .. }
    ));
}

#[test]
fn priority_table_cell_beats_content() {
    let mut map = LayoutMap::new();
    push_region(&mut map, "│ a │ b │", 0, 0, 0);
    map.push_table_cell_hit(TableCellHit {
        message_idx: 0,
        block_idx: 0,
        cell_idx: 0,
        cell_text: String::new(),
        segment: TableCellSegment {
            rendered_range: (2, 3),
            content_range: (2, 3),
            source_range: (0, 1),
        },
        rect: Rect::new(2, 0, 1, 1),
    });
    assert!(matches!(
        classify_click(&map, 2, 0),
        ClickTarget::TableCell { .. }
    ));
}

#[test]
fn content_gap_when_inside_content_rect_but_no_region() {
    let mut map = LayoutMap::new();
    map.set_transcript_content_rect(Rect::new(2, 4, 10, 20));
    assert_eq!(classify_click(&map, 5, 10), ClickTarget::ContentGap);
}

#[test]
fn dead_when_outside_content_rect_and_no_region() {
    let mut map = LayoutMap::new();
    map.set_transcript_content_rect(Rect::new(2, 4, 10, 20));
    assert_eq!(classify_click(&map, 100, 100), ClickTarget::Dead);
}

#[test]
fn summaries_name_their_step() {
    assert_eq!(
        summary_at(&SemanticCursor::new(4, THINKING_BLOCK_IDX, 0)),
        Some((4, StepKind::Thinking))
    );
    assert_eq!(summary_at(&SemanticCursor::new(4, 0, 0)), None);
    assert_eq!(
        StepKind::Thinking.focus_target(4),
        InteractiveTarget::thinking(4)
    );
    assert_eq!(
        StepKind::ToolStep.focus_target(6),
        InteractiveTarget::tool_step(6)
    );
}

#[test]
fn positions_do_not_fall_along_a_row() {
    let mut map = LayoutMap::new();
    let mut row = region("a世b e\u{301}!", 10, 2, Rect::new(3, 1, 20, 1));
    row.hidden_ranges = vec![(4, 5)];
    map.push(row);
    let offsets: Vec<usize> = (3..23)
        .map(|x| map.cursor_at(x, 1).unwrap().byte_offset)
        .collect();
    assert_eq!(
        offsets,
        vec![10, 10, 10, 11, 12, 15, 16, 19, 20, 20, 20, 20, 20, 20, 20, 20, 20, 20, 20, 20]
    );
}

#[test]
fn positions_are_in_document_order() {
    let ordered = [
        SemanticCursor::new(0, 0, 9),
        SemanticCursor::new(0, 1, 0),
        SemanticCursor::new(0, 1, 4),
        SemanticCursor::new(1, 0, 0),
    ];
    for (i, a) in ordered.iter().enumerate() {
        for (j, b) in ordered.iter().enumerate() {
            assert_eq!(a < b, i < j);
            assert_eq!(a == b, i == j);
            assert_eq!(a.partial_cmp(b), Some(a.cmp(b)));
            assert_eq!(a.cmp(b), i.cmp(&j));
        }
    }
}

#[test]
fn other_regions_do_not_matter_to_a_point() {
    let mut map = LayoutMap::new();
    map.push(region("hello", 0, 0, Rect::new(0, 0, 10, 1)));
    let mut far = region("far", 0, 0, Rect::new(0, 5, 10, 1));
    far.start_byte = usize::MAX;
    map.push(far);
    assert_eq!(map.cursor_at(1, 0), Some(SemanticCursor::new(0, 0, 1)));
}
