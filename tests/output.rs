use webrender_backend::output::DisplayListSlot;

#[test]
fn flush_without_draw_is_noop() {
    let mut slot: DisplayListSlot<Vec<u32>, u32> = DisplayListSlot::new();
    assert!(!slot.is_open());
    assert!(slot.finish().is_none());
    assert!(!slot.is_open());
}

#[test]
fn two_draws_one_transaction() {
    let mut slot: DisplayListSlot<Vec<u32>, u32> = DisplayListSlot::new();
    let mut made = 0;
    {
        let (builder, txn) = slot.begin(|| {
            made += 1;
            (Vec::new(), 0)
        });
        builder.push(1);
        *txn += 1;
    }
    {
        let (builder, txn) = slot.begin(|| {
            made += 1;
            (Vec::new(), 0)
        });
        builder.push(2);
        *txn += 1;
    }
    assert_eq!(made, 1);
    assert!(slot.is_open());
    assert_eq!(slot.finish(), Some((vec![1, 2], 2)));
    assert!(slot.finish().is_none());
}

#[test]
fn draw_after_flush_opens_fresh_list() {
    let mut slot: DisplayListSlot<Vec<u32>, u32> = DisplayListSlot::new();
    slot.begin(|| (vec![7], 1)).0.push(8);
    assert_eq!(slot.finish(), Some((vec![7, 8], 1)));
    slot.begin(|| (Vec::new(), 5)).0.push(9);
    assert_eq!(slot.finish(), Some((vec![9], 5)));
}
