use ghostkeys::icon::create_placeholder_icon;

fn expected_icon() -> Vec<u8> {
    let mut data = Vec::with_capacity(16 * 16 * 4);
    let purple = [0x8b, 0x5c, 0xf6, 0xff];
    for y in 0..16u32 {
        for x in 0..16u32 {
            let dx = x as f32 - 8.0;
            let dy = y as f32 - 6.0;
            let in_head = (dx * dx + dy * dy) < 36.0;
            let in_body = (6..=13).contains(&y) && (3..=12).contains(&x);
            let in_wave =
                (12..=15).contains(&y) && (3..=12).contains(&x) && ((x + y) % 3 != 0 || y < 14);
            if in_head || in_body || in_wave {
                data.extend_from_slice(&purple);
            } else {
                data.extend_from_slice(&[0, 0, 0, 0]);
            }
        }
    }
    data
}

#[test]
fn icon_matches_ghost_shape() {
    let icon = create_placeholder_icon();
    assert_eq!(icon.len(), 1024);
    assert_eq!(icon, expected_icon());
}

#[test]
fn icon_corners_and_centre() {
    let icon = create_placeholder_icon();
    let px = |x: usize, y: usize| icon[4 * (16 * y + x)..4 * (16 * y + x) + 4].to_vec();
    assert_eq!(px(0, 0), vec![0, 0, 0, 0]);
    assert_eq!(px(8, 6), vec![0x8b, 0x5c, 0xf6, 0xff]);
    assert_eq!(px(3, 15), vec![0, 0, 0, 0]);
    assert_eq!(px(4, 15), vec![0x8b, 0x5c, 0xf6, 0xff]);
}
