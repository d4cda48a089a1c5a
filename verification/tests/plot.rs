use sdr_routing::timeseries::{
    Color, Timeseries, TimeseriesBuilder, TimeseriesHandle, TimeseriesLineHandle,
    MAX_PLOTTED_VALUES,
};

const GOLD: Color = Color { r: 0xfa, g: 0xbd, b: 0x2f };

#[test]
fn builder_with_no_lines_adds_the_default_input() {
    let (block, handle) = TimeseriesBuilder::new().build();
    assert_eq!(block.n_inputs(), 1);
    assert_eq!(handle.lines.len(), 1);
    assert_eq!(handle.lines[0].label, "in");
    assert_eq!(handle.lines[0].color, GOLD);
    assert!(handle.lines[0].values.is_empty());
    assert_eq!(handle.lines[0].max_values, MAX_PLOTTED_VALUES);
    assert!(handle.title.is_none());
}

#[test]
fn builder_keeps_lines_and_title() {
    let red = Color { r: 255, g: 0, b: 0 };
    let blue = Color { r: 0, g: 0, b: 255 };
    let (block, handle) = TimeseriesBuilder::new()
        .title(String::from("phase difference"))
        .line(String::from("ch1"), red)
        .line(String::from("ch2"), blue)
        .build();
    assert_eq!(handle.title.as_deref(), Some("phase difference"));
    assert_eq!(block.n_inputs(), 2);
    assert_eq!(handle.lines.len(), 2);
    assert_eq!(handle.lines[0].label, "ch1");
    assert_eq!(handle.lines[0].color, red);
    assert_eq!(handle.lines[1].label, "ch2");
    assert_eq!(handle.lines[1].color, blue);
}

#[test]
fn line_handle_keeps_only_the_newest_values() {
    let mut line = TimeseriesLineHandle::new(String::from("in"), GOLD, 3);
    line.apply_update(&vec![1, 2]);
    assert_eq!(line.values, vec![1, 2]);
    line.apply_update(&vec![3]);
    assert_eq!(line.values, vec![1, 2, 3]);
    // Beyond the cap, the oldest values fall out of the front.
    line.apply_update(&vec![4, 5]);
    assert_eq!(line.values, vec![3, 4, 5]);
    // One oversized batch alone also keeps only its newest tail.
    line.apply_update(&vec![6, 7, 8, 9]);
    assert_eq!(line.values, vec![7, 8, 9]);
}

#[test]
fn handle_folds_one_update_batch_per_line() {
    let mut handle = TimeseriesHandle {
        lines: vec![
            TimeseriesLineHandle::new(String::from("ch1"), GOLD, 4),
            TimeseriesLineHandle::new(String::from("ch2"), GOLD, 2),
        ],
        title: None,
    };
    handle.process_updates(&vec![vec![1, 2, 3], vec![10, 20, 30]]);
    assert_eq!(handle.lines[0].values, vec![1, 2, 3]);
    assert_eq!(handle.lines[1].values, vec![20, 30]);
    handle.process_updates(&vec![vec![4, 5], vec![]]);
    assert_eq!(handle.lines[0].values, vec![2, 3, 4, 5]);
    assert_eq!(handle.lines[1].values, vec![20, 30]);
    assert_eq!(handle.lines[0].label, "ch1");
    assert_eq!(handle.lines[1].label, "ch2");
}

#[test]
fn handle_respects_the_default_cap() {
    let (_, mut handle) = TimeseriesBuilder::new().build();
    let big: Vec<u64> = (0..(MAX_PLOTTED_VALUES as u64 + 5)).collect();
    handle.process_updates(&vec![big]);
    assert_eq!(handle.lines[0].values.len(), MAX_PLOTTED_VALUES);
    assert_eq!(handle.lines[0].values[0], 5);
    assert_eq!(
        *handle.lines[0].values.last().unwrap(),
        MAX_PLOTTED_VALUES as u64 + 4
    );
}

#[test]
fn block_forwards_everything_and_finishes_with_all_inputs() {
    let block = Timeseries::new(vec![String::from("ch1"), String::from("ch2")]);
    assert_eq!(block.n_inputs(), 2);
    let inputs: Vec<Vec<u64>> = vec![vec![1, 2], vec![3]];
    let (batches, report) = block.work(&inputs, &vec![true, false]);
    assert_eq!(batches, inputs);
    assert_eq!(report.consumed, vec![2, 1]);
    assert!(report.produced.is_empty());
    assert!(!report.finished);
    let (_, report) = block.work(&inputs, &vec![true, true]);
    assert!(report.finished);
}
