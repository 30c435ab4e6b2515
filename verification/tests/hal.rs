use neo::app::Event;
use neo::app::App;
use neo::button::Button;
use neo::clock::configure_mco;
use neo::clock::init as clock_init;
use neo::clock::validate;
use neo::gpio::init as gpio_init;
use neo::gpio::AltFun;
use neo::gpio::Input;
use neo::gpio::Output;
use neo::led::Color;
use neo::led::Led;
use neo::pllcfg::read_pll_n;
use neo::pllcfg::read_pll_p;
use neo::pllcfg::read_pll_q;
use neo::pllcfg::write_pll_m;
use neo::pllcfg::write_pll_n;
use neo::pllcfg::write_pll_p;
use neo::pllcfg::write_pll_q;
use neo::pllcfg::PllCfgr;
use neo::regs::Rcc;
use neo::uart::init as uart_init;
use neo::uart::Uart;

#[test]
fn clock_bringup_validates() {
    let mut rcc = Rcc::new();
    assert!(!validate(&rcc));
    clock_init(&mut rcc, 16_000_000);
    assert!(validate(&rcc));
    assert!(rcc.hseon && rcc.hserdy && rcc.pllon && rcc.pllrdy);
    assert_eq!(rcc.pllmul, 4);
    assert_eq!(rcc.sw, 0b10);
}

#[test]
fn mco_routes_half_pll_clock() {
    let mut rcc = Rcc::new();
    let mut pin = Output::new();
    configure_mco(&mut pin, &mut rcc, 24_000_000);
    assert_eq!(pin.cfg.moder, 0b10);
    assert_eq!(pin.cfg.afr, 0);
    assert_eq!(rcc.mco, 0b0111);
    assert!(rcc.pllnodiv);
    assert_eq!(rcc.mcopre, 0b001);
}

#[test]
fn gpio_init_enables_both_banks() {
    let mut rcc = Rcc::new();
    gpio_init(&mut rcc);
    assert!(rcc.iopaen && rcc.iopben);
}

#[test]
fn output_pin_levels() {
    let mut pin = Output::new();
    assert_eq!(pin.cfg.moder, 0b01);
    assert!(!pin.cfg.odr);
    pin.set_high();
    assert!(pin.cfg.odr);
    pin.set_low();
    assert!(!pin.cfg.odr);
    pin.set(true);
    assert!(pin.cfg.odr);
    pin.open_drain();
    assert!(pin.cfg.otyper);
    assert!(!pin.cfg.odr);
    assert_eq!(pin.cfg.pupdr, 0b01);
}

#[test]
fn input_pin_pulls_and_reads() {
    let mut pin = Input::new();
    assert_eq!(pin.cfg.moder, 0b00);
    assert_eq!(pin.cfg.pupdr, 0b10);
    pin.pull_down();
    assert_eq!(pin.cfg.pupdr, 0b01);
    pin.pull_up();
    assert_eq!(pin.cfg.pupdr, 0b10);
    assert!(!pin.read());
    pin.set_level(true);
    assert!(pin.read());
}

#[test]
fn alt_fun_pin_configuration() {
    let pin = AltFun::alt_fun(1, false);
    assert_eq!(pin.cfg.moder, 0b10);
    assert_eq!(pin.cfg.afr, 1);
    assert_eq!(pin.cfg.ospeedr, 0b00);
    let fast = AltFun::alt_fun(2, true);
    assert_eq!(fast.cfg.ospeedr, 0b10);
    let fresh = AltFun::new();
    assert_eq!(fresh.cfg.moder, 0);
}

#[test]
fn pll_divider_bits_round_trip() {
    let mut r = PllCfgr::new();
    write_pll_m(&mut r, 8);
    write_pll_n(&mut r, 168);
    write_pll_p(&mut r, 2);
    write_pll_q(&mut r, 4);
    assert!(r.pllm3);
    assert!(!r.pllm0);
    assert_eq!(read_pll_n(&r), 168);
    assert_eq!(read_pll_p(&r), 2);
    assert_eq!(read_pll_q(&r), 4);
}

#[test]
fn uart_divisor_split() {
    let mut rcc = Rcc::new();
    uart_init(&mut rcc);
    assert!(rcc.usart1en && rcc.usart2en);
    // 48 MHz bus at 115200 baud: divisor 416 = 0x1A0.
    let u = Uart::new(48_000_000, 115_200);
    assert_eq!(u.div_mantissa, 26);
    assert_eq!(u.div_fraction, 0);
    assert!(u.ue && u.te && u.re);
    assert!(!u.pce);
}

#[test]
fn uart_transfers_bytes_in_order() {
    let mut u = Uart::new(48_000_000, 115_200);
    assert!(u.write_ready());
    u.write_byte(0x41);
    u.write(&[0x42, 0x43]);
    assert_eq!(u.tx, vec![0x41, 0x42, 0x43]);
    assert!(!u.read_ready());
    u.rx = vec![1, 2, 3];
    assert!(u.read_ready());
    assert_eq!(u.read_byte(), 1);
    let mut buffer = vec![0u8; 2];
    u.read_exact(&mut buffer);
    assert_eq!(buffer, vec![2, 3]);
    assert!(!u.read_ready());
}

#[test]
fn uart_read_until_delimiter() {
    let mut u = Uart::new(48_000_000, 115_200);
    u.rx = b"abc\nxyz".to_vec();
    let mut buffer = vec![0u8; 6];
    let len = u.read_until(b'\n', &mut buffer);
    assert_eq!(len, 4);
    assert_eq!(buffer, b"abc\n\0\0".to_vec());
    assert_eq!(u.rx, b"xyz".to_vec());
    // Without a delimiter the whole buffer is filled.
    let mut buffer = vec![0u8; 2];
    let len = u.read_until(b'\n', &mut buffer);
    assert_eq!(len, 2);
    assert_eq!(buffer, b"xy".to_vec());
    assert_eq!(u.rx, b"z".to_vec());
}

#[test]
fn led_colors_drive_pins() {
    let mut led: Led<false> = Led::new(Output::new(), Output::new(), Output::new());
    led.set(Color::Red);
    assert!(led.r.cfg.odr);
    assert!(!led.g.cfg.odr);
    assert!(!led.b.cfg.odr);
    led.set(Color::Teal);
    assert!(!led.r.cfg.odr);
    assert!(led.g.cfg.odr);
    assert!(led.b.cfg.odr);
    assert_eq!(Color::White.rgb(), (true, true, true));
}

#[test]
fn inverted_led_flips_levels() {
    let mut led: Led<true> = Led::new(Output::new(), Output::new(), Output::new());
    led.set(Color::Red);
    assert!(!led.r.cfg.odr);
    assert!(led.g.cfg.odr);
    assert!(led.b.cfg.odr);
}

#[test]
fn app_timer_toggles_led() {
    let mut app = App::default();
    let mut led: Led<false> = Led::new(Output::new(), Output::new(), Output::new());
    led.set(Color::Blue);
    let mut tx: Vec<u8> = Vec::new();
    app.handle(Event::Timer1Hz, &mut tx, &mut led);
    assert!(!led.on);
    assert!(tx.is_empty());
    app.handle(Event::Timer1Hz, &mut tx, &mut led);
    assert!(led.on);
    // Turning back on restores the remembered colour.
    assert!(!led.r.cfg.odr);
    assert!(led.b.cfg.odr);
}

#[test]
fn app_answers_each_completed_line() {
    let mut app = App::default();
    let mut led: Led<false> = Led::new(Output::new(), Output::new(), Output::new());
    let mut tx: Vec<u8> = Vec::new();
    app.handle(Event::ConsoleRx(b'h'), &mut tx, &mut led);
    app.handle(Event::ConsoleRx(b'i'), &mut tx, &mut led);
    assert!(tx.is_empty());
    app.handle(Event::ConsoleRx(b'\r'), &mut tx, &mut led);
    assert_eq!(tx, b"hello: hi\r\n".to_vec());
    // The line starts over after the response.
    app.handle_byte(b'\r', &mut tx);
    assert_eq!(&tx[tx.len() - 9..], b"hello: \r\n");
}

#[test]
fn app_full_line_forces_a_response() {
    let mut app = App::default();
    let mut tx: Vec<u8> = Vec::new();
    for _ in 0..128 {
        app.handle_byte(b'a', &mut tx);
    }
    assert!(tx.is_empty());
    // The 129th byte no longer fits: the collected line is answered.
    app.handle_byte(b'b', &mut tx);
    assert_eq!(tx.len(), 7 + 128 + 2);
    assert_eq!(&tx[..7], b"hello: ");
    assert!(tx[7..7 + 128].iter().all(|&c| c == b'a'));
}

#[test]
fn button_reports_level_and_comparison() {
    let mut button = Button::default();
    assert!(!button.last_state);
    let (level, same) = button.read();
    assert!(!level);
    assert!(same);
    button.pin.set_level(true);
    let (level, same) = button.read();
    assert!(level);
    assert!(!same);
    let (level, same) = button.read();
    assert!(level);
    assert!(same);
}
