use tracer::pixel::Pixel;
use tracer::reorder::{drain_rows, RowBuffer};

fn row(tag: u32, width: usize) -> Vec<Pixel> {
    let mut r = Vec::new();
    let mut c: usize = 0;
    while c < width {
        r.push(Pixel::new(tag, c as u32, tag + c as u32));
        c += 1;
    }
    r
}

#[test]
fn reversed_arrivals_flush_in_ascending_order() {
    // Completions for height 5 arriving as 4, 3, 2, 1, 0 must leave the
    // coordinator as exactly 0, 1, 2, 3, 4.
    let mut buf = RowBuffer::new(5);
    let mut flushed: Vec<Vec<Pixel>> = Vec::new();
    for idx in [4usize, 3, 2, 1, 0] {
        let mut out = buf.push(idx, row(idx as u32, 3));
        flushed.append(&mut out);
    }
    assert_eq!(flushed.len(), 5);
    for (i, r) in flushed.iter().enumerate() {
        assert_eq!(*r, row(i as u32, 3));
    }
}

#[test]
fn expected_row_flushes_at_once() {
    let mut buf = RowBuffer::new(3);
    let out = buf.push(0, row(0, 2));
    assert_eq!(out, vec![row(0, 2)]);
}

#[test]
fn early_rows_wait_for_the_gap() {
    let mut buf = RowBuffer::new(4);
    assert!(buf.push(1, row(1, 2)).is_empty());
    assert!(buf.push(3, row(3, 2)).is_empty());
    assert!(buf.push(2, row(2, 2)).is_empty());
    let out = buf.push(0, row(0, 2));
    assert_eq!(out, vec![row(0, 2), row(1, 2), row(2, 2), row(3, 2)]);
}

#[test]
fn partial_drain_stops_at_missing_row() {
    let mut buf = RowBuffer::new(4);
    assert!(buf.push(1, row(1, 2)).is_empty());
    let out = buf.push(0, row(0, 2));
    assert_eq!(out, vec![row(0, 2), row(1, 2)]);
    let out = buf.push(3, row(3, 2));
    assert!(out.is_empty());
    let out = buf.push(2, row(2, 2));
    assert_eq!(out, vec![row(2, 2), row(3, 2)]);
}

#[test]
fn drain_rows_orders_a_complete_render() {
    let arrivals: Vec<(usize, Vec<Pixel>)> =
        vec![(2, row(2, 3)), (0, row(0, 3)), (4, row(4, 3)), (1, row(1, 3)), (3, row(3, 3))];
    let out = drain_rows(5, arrivals);
    assert_eq!(out.len(), 5);
    for (i, r) in out.iter().enumerate() {
        assert_eq!(*r, row(i as u32, 3));
    }
}

#[test]
fn empty_render_flushes_nothing() {
    let out = drain_rows(0, Vec::new());
    assert!(out.is_empty());
}

#[test]
fn in_order_arrivals_flush_one_by_one() {
    let mut buf = RowBuffer::new(3);
    for idx in 0usize..3 {
        let out = buf.push(idx, row(idx as u32, 2));
        assert_eq!(out, vec![row(idx as u32, 2)]);
    }
}

#[test]
fn drain_rows_is_arrival_order_independent() {
    // The same labelled payloads in two different arrival orders: both
    // renders flush identical streams.
    let one: Vec<(usize, Vec<Pixel>)> = vec![(1, row(7, 2)), (0, row(9, 2)), (2, row(5, 2))];
    let two: Vec<(usize, Vec<Pixel>)> = vec![(2, row(5, 2)), (1, row(7, 2)), (0, row(9, 2))];
    let out_one = drain_rows(3, one);
    let out_two = drain_rows(3, two);
    assert_eq!(out_one, out_two);
}
