use embedded_graphics::pixelcolor::{IntoStorage, Rgb565, RgbColor};
use rm67162::driver::{Orientation, Pixel, Rect, Size, Step, RM67162};
use rm67162::protocol::{send_cmd, send_cmd_114, DataPhase, Transaction, TransferMode, FLUSH_BYTES};

fn single(cmd: u8, data: Vec<u8>) -> Transaction {
    Transaction {
        opcode: 0x02,
        addr: (cmd as u32) << 8,
        data_phase: DataPhase::Single,
        mode: if data.is_empty() { TransferMode::NoData } else { TransferMode::WriteOnly },
        dummy_cycles: 0,
        payload: data,
    }
}

fn quad(cmd: u8, data: Vec<u8>) -> Transaction {
    Transaction {
        opcode: 0x32,
        addr: (cmd as u32) << 8,
        data_phase: DataPhase::Quad,
        mode: if data.is_empty() { TransferMode::NoData } else { TransferMode::WriteOnly },
        dummy_cycles: 0,
        payload: data,
    }
}

fn window(x1: u16, y1: u16, x2: u16, y2: u16) -> Vec<Transaction> {
    vec![
        single(0x2A, vec![(x1 >> 8) as u8, x1 as u8, (x2 >> 8) as u8, x2 as u8]),
        single(0x2B, vec![(y1 >> 8) as u8, y1 as u8, (y2 >> 8) as u8, y2 as u8]),
        single(0x2C, vec![]),
    ]
}

fn data_bytes(ts: &[Transaction]) -> Vec<u8> {
    ts.iter().flat_map(|t| t.payload.iter().copied()).collect()
}

#[test]
fn command_framing() {
    let t = send_cmd(0x11, vec![]);
    assert_eq!(t.opcode, 0x02);
    assert_eq!(t.addr, 0x1100);
    assert_eq!(t.mode, TransferMode::NoData);
    assert_eq!(t.dummy_cycles, 0);
    let q = send_cmd_114(0x3C, vec![1, 2]);
    assert_eq!(q.opcode, 0x32);
    assert_eq!(q.addr, 0x3C00);
    assert_eq!(q.data_phase, DataPhase::Quad);
    assert_eq!(q.mode, TransferMode::WriteOnly);
    assert_eq!(q.payload, vec![1, 2]);
}

#[test]
fn orientation_registers_and_sizes() {
    let all = [
        Orientation::Portrait,
        Orientation::Landscape,
        Orientation::PortraitFlipped,
        Orientation::LandscapeFlipped,
    ];
    let regs: Vec<u8> = all.iter().map(|o| o.to_madctr()).collect();
    assert_eq!(regs, vec![0x00, 0x60, 0xC0, 0xA0]);
    for i in 0..4 {
        for j in 0..4 {
            assert_eq!(i == j, regs[i] == regs[j]);
        }
        assert_eq!(all[i].to_madctr(), regs[i]);
    }
    let mut d = RM67162::new();
    assert_eq!(d.orientation(), Orientation::LandscapeFlipped);
    assert_eq!(d.size(), Size { width: 536, height: 240 });
    let t = d.set_orientation(Orientation::Portrait);
    assert_eq!(t, single(0x36, vec![0x00]));
    assert_eq!(d.size(), Size { width: 240, height: 536 });
    d.set_orientation(Orientation::PortraitFlipped);
    assert_eq!(d.size(), Size { width: 240, height: 536 });
    let t = d.set_orientation(Orientation::Landscape);
    assert_eq!(t, single(0x36, vec![0x60]));
    assert_eq!(d.size(), Size { width: 536, height: 240 });
}

#[test]
fn reset_sequence() {
    let d = RM67162::new();
    assert_eq!(
        d.reset(),
        vec![Step::ResetLine(false), Step::DelayMs(250), Step::ResetLine(true), Step::DelayMs(200)]
    );
}

#[test]
fn init_then_plot_red_pixel() {
    let d = RM67162::new();
    let steps = d.init();
    assert_eq!(
        steps,
        vec![
            Step::Send(single(0x11, vec![])),
            Step::DelayMs(120),
            Step::Send(single(0x3A, vec![0x55])),
            Step::Send(single(0x51, vec![0xD0])),
            Step::Send(single(0x29, vec![])),
            Step::DelayMs(120),
            Step::Send(single(0x51, vec![0xD0])),
            Step::Send(single(0x36, vec![0xA0])),
        ]
    );
    let red: u16 = Rgb565::RED.into_storage();
    let plan = d.draw_point(10, 10, red);
    let mut expected = window(10, 10, 10, 10);
    expected.push(quad(0x2C, vec![0xF8, 0x00]));
    assert_eq!(plan, expected);
}

#[test]
fn fill_two_pixels_one_data_command() {
    let d = RM67162::new();
    let c0: u16 = 0x1234;
    let c1: u16 = 0xABCD;
    let plan = d.fill_colors(0, 0, 2, 1, &[c0, c1]);
    let mut expected = window(0, 0, 1, 0);
    expected.push(quad(0x3C, vec![0x12, 0x34, 0xAB, 0xCD]));
    assert_eq!(plan, expected);
}

#[test]
fn fill_consumes_exactly_the_area() {
    let d = RM67162::new();
    let colors: Vec<u16> = (1..=10).collect();
    let plan = d.fill_colors(5, 7, 3, 2, &colors);
    assert_eq!(plan[..3], window(5, 7, 7, 8)[..]);
    assert_eq!(plan.len(), 4);
    assert_eq!(data_bytes(&plan[3..]), vec![0, 1, 0, 2, 0, 3, 0, 4, 0, 5, 0, 6]);
}

#[test]
fn fill_with_short_source_stops_at_its_end() {
    let d = RM67162::new();
    let plan = d.fill_colors(0, 0, 3, 2, &[0xFFFF, 0x0001]);
    assert_eq!(plan.len(), 4);
    assert_eq!(data_bytes(&plan[3..]), vec![0xFF, 0xFF, 0x00, 0x01]);
    let empty = d.fill_colors(0, 0, 3, 2, &[]);
    assert_eq!(empty, window(0, 0, 2, 1));
}

#[test]
fn full_surface_fill_is_split_at_flush_boundary() {
    let d = RM67162::new();
    let plan = d.fill_solid(Rect { x: 0, y: 0, width: 536, height: 240 }, 0x0102);
    assert_eq!(plan[..3], window(0, 0, 535, 239)[..]);
    assert_eq!(plan.len(), 5);
    assert_eq!(plan[3].payload.len(), FLUSH_BYTES);
    assert_eq!(plan[4].payload.len(), FLUSH_BYTES);
    assert!(plan[3..].iter().all(|t| t.addr == 0x3C00 && t.opcode == 0x32));
    assert!(data_bytes(&plan[3..]).chunks(2).all(|c| c == [0x01, 0x02]));
}

#[test]
fn fill_solid_is_clipped_to_the_surface() {
    let d = RM67162::new();
    let plan = d.fill_solid(Rect { x: -2, y: 238, width: 4, height: 5 }, 0xFFFF);
    let mut expected = window(0, 238, 1, 239);
    expected.push(quad(0x3C, vec![0xFF; 8]));
    assert_eq!(plan, expected);
    assert!(d.fill_solid(Rect { x: 600, y: 0, width: 4, height: 5 }, 0).is_empty());
    assert!(d.fill_solid(Rect { x: 0, y: 0, width: 0, height: 5 }, 0).is_empty());
}

#[test]
fn draw_iter_discards_pixels_off_the_surface() {
    let d = RM67162::new();
    let plan = d.draw_iter(&[
        Pixel { x: -1, y: 3, color: 1 },
        Pixel { x: 3, y: 4, color: 0x0203 },
        Pixel { x: 536, y: 0, color: 1 },
        Pixel { x: 0, y: 240, color: 1 },
    ]);
    let mut expected = window(3, 4, 3, 4);
    expected.push(quad(0x2C, vec![0x02, 0x03]));
    assert_eq!(plan, expected);
}

#[test]
fn fill_contiguous_inside_and_across_the_edge() {
    let d = RM67162::new();
    let inside = d.fill_contiguous(Rect { x: 1, y: 1, width: 2, height: 1 }, &[7, 8]);
    let mut expected = window(1, 1, 2, 1);
    expected.push(quad(0x3C, vec![0, 7, 0, 8]));
    assert_eq!(inside, expected);

    let across = d.fill_contiguous(Rect { x: 535, y: 0, width: 2, height: 2 }, &[1, 2, 3, 4]);
    let mut expected = window(535, 0, 535, 0);
    expected.push(quad(0x2C, vec![0, 1]));
    expected.extend(window(535, 1, 535, 1));
    expected.push(quad(0x2C, vec![0, 3]));
    assert_eq!(across, expected);
}

#[test]
fn framebuffer_is_sent_verbatim() {
    let d = RM67162::new();
    let raw = vec![0xAB; 536 * 240 * 2];
    let plan = d.fill_with_framebuffer(raw.clone());
    assert_eq!(plan.len(), 4);
    assert_eq!(plan[..3], window(0, 0, 535, 239)[..]);
    assert_eq!(plan[3], quad(0x3C, raw));
}

#[test]
fn set_address_encodes_big_endian() {
    let d = RM67162::new();
    assert_eq!(d.set_address(0x0102, 3, 0x0215, 0x00EF), window(0x0102, 3, 0x0215, 0x00EF));
    assert_eq!(d.set_address(0x0102, 3, 0x0215, 0x00EF)[0].payload, vec![0x01, 0x02, 0x02, 0x15]);
}
