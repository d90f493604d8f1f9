use lcd_agent::init_lcd;

#[test]
fn init_lcd_accepts_any_path() {
    init_lcd("/home/agent/.lcd-agent/");
    init_lcd("");
}
