use rgbl::lcd::draw_lcd;
use rgbl::lcd::Lcd;

#[test]
fn set_line_touches_only_its_row() {
    let mut lcd = Lcd::new();
    let line: Vec<u8> = (0..160u32).map(|x| (x % 4) as u8).collect();
    lcd.set_line(3, &line);
    for x in 0..160 {
        assert_eq!(lcd.pixels[3 * 160 + x], (x % 4) as u8);
        assert_eq!(lcd.pixels[2 * 160 + x], 0);
        assert_eq!(lcd.pixels[4 * 160 + x], 0);
    }
}

#[test]
fn draw_lcd_maps_shades_to_rgba() {
    let mut lcd = Lcd::new();
    let mut line = vec![0u8; 160];
    line[0] = 0;
    line[1] = 1;
    line[2] = 2;
    line[3] = 3;
    lcd.set_line(0, &line);
    let mut frame: Vec<u8> = Vec::new();
    draw_lcd(&lcd, &mut frame);
    assert_eq!(frame.len(), 160 * 144 * 4);
    assert_eq!(&frame[0..4], &[255, 255, 255, 255]);
    assert_eq!(&frame[4..8], &[175, 175, 175, 255]);
    assert_eq!(&frame[8..12], &[100, 100, 100, 255]);
    assert_eq!(&frame[12..16], &[0, 0, 0, 255]);
}
