use flipper::setup::{
    fifo_setup_steps, high_half, low_half, Region, SetupStep, FIFO_END, FIFO_START, HI_WATERMARK,
};

fn cp(offset: usize, half: u16) -> SetupStep {
    SetupStep::Write16 { region: Region::Cp, offset, half }
}

fn pi(offset: usize, word: u32) -> SetupStep {
    SetupStep::Write32 { region: Region::Pi, offset, word }
}

#[test]
fn halves() {
    assert_eq!(low_half(0x0173_4000), 0x4000);
    assert_eq!(high_half(0x0173_4000), 0x0173);
    assert_eq!(low_half(0xffff_0001), 1);
    assert_eq!(high_half(0xffff_0001), 0xffff);
}

#[test]
fn fifo_geometry() {
    assert_eq!(FIFO_START, 0x0173_4000);
    assert_eq!(FIFO_END, 0x0177_4000);
    assert_eq!(HI_WATERMARK, 0x3_0000);
}

#[test]
fn setup_plan_in_order() {
    let wg32 = SetupStep::Write32 { region: Region::WriteGatherPipe, offset: 0, word: 0 };
    let expected = vec![
        SetupStep::SetSpr { spr: 921, value: 0x0c00_8000 },
        cp(0x02, 0),
        cp(0x04, 0x7),
        cp(0x20, 0x4000),
        cp(0x22, 0x0173),
        cp(0x24, 0x4000),
        cp(0x26, 0x0177),
        cp(0x28, 0x0000),
        cp(0x2a, 0x0003),
        cp(0x2c, 0),
        cp(0x2e, 0),
        cp(0x30, 0),
        cp(0x32, 0),
        cp(0x34, 0x4000),
        cp(0x36, 0x0173),
        cp(0x38, 0x4000),
        cp(0x3a, 0x0173),
        pi(0x0c, 0x0173_4000),
        pi(0x10, 0x0177_4000),
        pi(0x14, 0x0173_4000),
        wg32,
        wg32,
        wg32,
        wg32,
        wg32,
        wg32,
        wg32,
        SetupStep::Write16 { region: Region::WriteGatherPipe, offset: 0, half: 0 },
        SetupStep::Write8 { region: Region::WriteGatherPipe, offset: 0, byte: 0 },
        pi(0x14, 0x0173_4000),
        cp(0x02, 0x11),
    ];
    assert_eq!(fifo_setup_steps(), expected);
}

#[test]
fn setup_writes_fit_their_windows() {
    for step in fifo_setup_steps() {
        match step {
            SetupStep::SetSpr { .. } => {}
            SetupStep::Write8 { region, offset, .. } => assert!(offset + 1 <= size(region)),
            SetupStep::Write16 { region, offset, .. } => {
                assert!(offset + 2 <= size(region) && offset % 2 == 0)
            }
            SetupStep::Write32 { region, offset, .. } => {
                assert!(offset + 4 <= size(region) && offset % 4 == 0)
            }
        }
    }
}

fn size(region: Region) -> usize {
    match region {
        Region::Cp | Region::Pi => 256,
        Region::WriteGatherPipe => 4,
    }
}

#[test]
fn control_register_is_written_first_and_last_only() {
    let plan = fifo_setup_steps();
    let control: Vec<usize> = plan
        .iter()
        .enumerate()
        .filter(|(_, s)| matches!(s, SetupStep::Write16 { region: Region::Cp, offset: 0x2, .. }))
        .map(|(i, _)| i)
        .collect();
    assert_eq!(control, vec![1, plan.len() - 1]);
    assert!(!plan
        .iter()
        .any(|s| matches!(s, SetupStep::Write16 { region: Region::Cp, offset: 0x0, .. })));
}
