//! Controller instruction set and the power-on command table.
use vstd::prelude::*;

verus! {

pub const SWRESET: u8 = 0x01;
pub const SLPOUT: u8 = 0x11;
pub const NORON: u8 = 0x13;
pub const INVOFF: u8 = 0x20;
pub const INVON: u8 = 0x21;
pub const DISPOFF: u8 = 0x28;
pub const DISPON: u8 = 0x29;
pub const CASET: u8 = 0x2A;
pub const RASET: u8 = 0x2B;
pub const RAMWR: u8 = 0x2C;
pub const RAMRD: u8 = 0x2E;
pub const COLMOD: u8 = 0x3A;
pub const MADCTL: u8 = 0x36;
pub const FRMCTR1: u8 = 0xB1;
pub const FRMCTR2: u8 = 0xB2;
pub const FRMCTR3: u8 = 0xB3;
pub const INVCTR: u8 = 0xB4;
pub const DISSET5: u8 = 0xB6;
pub const PWCTR1: u8 = 0xC0;
pub const PWCTR2: u8 = 0xC1;
pub const PWCTR3: u8 = 0xC2;
pub const PWCTR4: u8 = 0xC3;
pub const PWCTR5: u8 = 0xC4;
pub const PWCTR6: u8 = 0xFC;
pub const VMCTR1: u8 = 0xC5;
pub const GMCTRP1: u8 = 0xE0;
pub const GMCTRN1: u8 = 0xE1;

/// One record of a command sequence: an instruction byte, its parameter
/// bytes, and the settling time in milliseconds to wait after sending it.
pub struct Command {
    pub instruction: u8,
    pub params: Vec<u8>,
    pub delay_time: u32,
}

/// A command record as plain values: (instruction, parameters, delay).
pub type CommandRecord = (u8, Seq<u8>, u32);

impl View for Command {
    type V = CommandRecord;

    open spec fn view(&self) -> CommandRecord {
        (self.instruction, self.params@, self.delay_time)
    }
}

impl Command {
    pub fn new(instruction: u8, params: Vec<u8>, delay_time: u32) -> (r: Command)
        ensures
            r.instruction == instruction,
            r.params@ == params@,
            r.delay_time == delay_time,
    {
        Command { instruction, params, delay_time }
    }
}

/// The records of a command list, as plain values.
pub open spec fn records(v: Seq<Command>) -> Seq<CommandRecord> {
    Seq::new(v.len(), |i: int| v[i]@)
}

/// Parameters of the positive gamma-correction table.
pub open spec fn gamma_positive() -> Seq<u8> {
    seq![
        0x02u8, 0x1c, 0x07, 0x12, 0x37, 0x32, 0x29, 0x2d, 0x29, 0x25, 0x2b, 0x39, 0x00, 0x01,
        0x03, 0x10,
    ]
}

/// Parameters of the negative gamma-correction table.
pub open spec fn gamma_negative() -> Seq<u8> {
    seq![
        0x03u8, 0x1d, 0x07, 0x06, 0x2e, 0x2c, 0x29, 0x2d, 0x2e, 0x2e, 0x37, 0x3f, 0x00, 0x00,
        0x02, 0x10,
    ]
}

/// The bring-up sequence of the controller, in the order in which it must be
/// sent. Only four records depend on the panel: the inversion mode, the
/// access-control byte, and the column and row address ranges.
pub open spec fn init_table(
    inverted: bool,
    madctl: u8,
    caset: Seq<u8>,
    raset: Seq<u8>,
) -> Seq<CommandRecord> {
    seq![
        (SWRESET, Seq::<u8>::empty(), 120u32),
        (SLPOUT, Seq::<u8>::empty(), 255u32),
        (FRMCTR1, seq![0x01u8, 0x2C, 0x2D], 0u32),
        (FRMCTR2, seq![0x01u8, 0x2C, 0x2D], 0u32),
        (FRMCTR3, seq![0x01u8, 0x2C, 0x2D, 0x01, 0x2C, 0x2D], 10u32),
        (INVCTR, seq![0x07u8], 0u32),
        (PWCTR1, seq![0xA2u8, 0x02, 0x84], 0u32),
        (PWCTR2, seq![0xC5u8], 0u32),
        (PWCTR3, seq![0x0Au8, 0x00], 0u32),
        (PWCTR4, seq![0x8Au8, 0x2A], 0u32),
        (PWCTR5, seq![0x8Au8, 0xEE], 0u32),
        (VMCTR1, seq![0x0Eu8], 0u32),
        (if inverted { INVON } else { INVOFF }, Seq::<u8>::empty(), 0u32),
        (MADCTL, seq![madctl], 0u32),
        (COLMOD, seq![0x05u8], 0u32),
        (CASET, caset, 0u32),
        (RASET, raset, 0u32),
        (GMCTRP1, gamma_positive(), 0u32),
        (GMCTRN1, gamma_negative(), 0u32),
        (NORON, Seq::<u8>::empty(), 10u32),
        (DISPON, Seq::<u8>::empty(), 100u32),
    ]
}

/// Builds the bring-up command table for the given inversion mode,
/// access-control byte and address-range parameters.
pub fn init_sequence(inverted: bool, madctl: u8, caset: Vec<u8>, raset: Vec<u8>) -> (r: Vec<
    Command,
>)
    ensures
        records(r@) == init_table(inverted, madctl, caset@, raset@),
{
    let ghost caset_v = caset@;
    let ghost raset_v = raset@;
    let mut t: Vec<Command> = Vec::new();
    t.push(Command::new(SWRESET, vec![], 120));
    t.push(Command::new(SLPOUT, vec![], 255));
    t.push(Command::new(FRMCTR1, vec![0x01, 0x2C, 0x2D], 0));
    t.push(Command::new(FRMCTR2, vec![0x01, 0x2C, 0x2D], 0));
    t.push(Command::new(FRMCTR3, vec![0x01, 0x2C, 0x2D, 0x01, 0x2C, 0x2D], 10));
    t.push(Command::new(INVCTR, vec![0x07], 0));
    t.push(Command::new(PWCTR1, vec![0xA2, 0x02, 0x84], 0));
    t.push(Command::new(PWCTR2, vec![0xC5], 0));
    t.push(Command::new(PWCTR3, vec![0x0A, 0x00], 0));
    t.push(Command::new(PWCTR4, vec![0x8A, 0x2A], 0));
    t.push(Command::new(PWCTR5, vec![0x8A, 0xEE], 0));
    t.push(Command::new(VMCTR1, vec![0x0E], 0));
    t.push(Command::new(if inverted { INVON } else { INVOFF }, vec![], 0));
    t.push(Command::new(MADCTL, vec![madctl], 0));
    t.push(Command::new(COLMOD, vec![0x05], 0));
    t.push(Command::new(CASET, caset, 0));
    t.push(Command::new(RASET, raset, 0));
    t.push(
        Command::new(
            GMCTRP1,
            vec![
                0x02, 0x1c, 0x07, 0x12, 0x37, 0x32, 0x29, 0x2d, 0x29, 0x25, 0x2b, 0x39, 0x00,
                0x01, 0x03, 0x10,
            ],
            0,
        ),
    );
    t.push(
        Command::new(
            GMCTRN1,
            vec![
                0x03, 0x1d, 0x07, 0x06, 0x2e, 0x2c, 0x29, 0x2d, 0x2e, 0x2e, 0x37, 0x3f, 0x00,
                0x00, 0x02, 0x10,
            ],
            0,
        ),
    );
    t.push(Command::new(NORON, vec![], 10));
    t.push(Command::new(DISPON, vec![], 100));
    // Record by record: the solver does not unfold the whole table at once.
    let ghost tb = init_table(inverted, madctl, caset_v, raset_v);
    assert(records(t@).len() == tb.len());
    assert(records(t@)[0] == tb[0]);
    assert(records(t@)[1] == tb[1]);
    assert(records(t@)[2] == tb[2]);
    assert(records(t@)[3] == tb[3]);
    assert(records(t@)[4] == tb[4]);
    assert(records(t@)[5] == tb[5]);
    assert(records(t@)[6] == tb[6]);
    assert(records(t@)[7] == tb[7]);
    assert(records(t@)[8] == tb[8]);
    assert(records(t@)[9] == tb[9]);
    assert(records(t@)[10] == tb[10]);
    assert(records(t@)[11] == tb[11]);
    assert(records(t@)[12] == tb[12]);
    assert(records(t@)[13] == tb[13]);
    assert(records(t@)[14] == tb[14]);
    assert(records(t@)[15] == tb[15]);
    assert(records(t@)[16] == tb[16]);
    assert(records(t@)[17] == tb[17]);
    assert(records(t@)[18] == tb[18]);
    assert(records(t@)[19] == tb[19]);
    assert(records(t@)[20] == tb[20]);
    assert(records(t@) =~= tb);
    t
}

} // verus!
