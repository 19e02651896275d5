//! Serial-configuration planning.
//!
//! The bridge drives the serial line at the DMX bit rate of 250000 baud in
//! raw 8N2 framing. Two mutually exclusive strategies reach that state: the
//! extended-termios strategy sets the rate through the out-of-band speed
//! fields, and the legacy strategy pins the nominal rate to B38400 and
//! programs a custom divisor into the serial-line structure. This module
//! computes, from a snapshot of the current hardware state, exactly what is
//! to be written back — and the reversal record that teardown later replays.
//! The system calls that read and write the hardware live outside the
//! library; they exchange plain field values with these functions.

use vstd::prelude::*;
use vstd::string::StringSliceAdditionalSpecFns;

use crate::errors::BridgeError;

verus! {

// Linux termios flag bits (x86-64 values).
pub const IGNBRK: u32 = 0x1;
pub const BRKINT: u32 = 0x2;
pub const PARMRK: u32 = 0x8;
pub const ISTRIP: u32 = 0x20;
pub const INLCR: u32 = 0x40;
pub const IGNCR: u32 = 0x80;
pub const ICRNL: u32 = 0x100;
pub const IXON: u32 = 0x400;
pub const IXANY: u32 = 0x800;
pub const IXOFF: u32 = 0x1000;

pub const OPOST: u32 = 0x1;
pub const ONLCR: u32 = 0x4;

pub const CBAUD: u32 = 0x100F;
pub const B38400: u32 = 0xF;
pub const CSIZE: u32 = 0x30;
pub const CS8: u32 = 0x30;
pub const CSTOPB: u32 = 0x40;
pub const CREAD: u32 = 0x80;
pub const PARENB: u32 = 0x100;
pub const CLOCAL: u32 = 0x800;
pub const CBAUDEX: u32 = 0x1000;
pub const CRTSCTS: u32 = 0x80000000;

pub const ISIG: u32 = 0x1;
pub const ICANON: u32 = 0x2;
pub const ECHO: u32 = 0x8;
pub const ECHOE: u32 = 0x10;
pub const ECHONL: u32 = 0x40;

// Serial-line structure flag bits: custom-divisor speed selection and the
// low-latency request.
pub const ASYNC_SPD_CUST: u32 = 0x30;
pub const ASYNC_LOW_LATENCY: u32 = 0x2000;

/// The DMX512 bit rate in baud.
pub const DMX_BAUD: u32 = 250000;

/// Which configuration strategy the caller chose at startup. The choice is
/// made once; there is no runtime switching.
#[derive(Clone, Copy, Debug, PartialEq, Eq, Structural)]
pub enum Mode {
    /// Set the rate through the extended terminal attributes.
    Termios2,
    /// Pin the nominal rate to B38400 and program a custom divisor.
    SetSerial,
}

/// A byte with an ASCII lower-case letter folded to its upper case.
pub open spec fn ascii_upper(b: u8) -> u8 {
    if 97 <= b && b <= 122 {
        (b - 32) as u8
    } else {
        b
    }
}

/// Whether `s`, upper-cased ASCII-wise, spells the (already upper-case)
/// word `w`.
pub open spec fn matches_ignore_ascii_case(s: Seq<u8>, w: Seq<u8>) -> bool {
    &&& s.len() == w.len()
    &&& forall|i: int| 0 <= i < s.len() ==> ascii_upper(s[i]) == w[i]
}

/// The bytes of "TERMIOS2".
pub open spec fn termios2_word() -> Seq<u8> {
    seq![84u8, 69u8, 82u8, 77u8, 73u8, 79u8, 83u8, 50u8]
}

/// The bytes of "SET-SERIAL".
pub open spec fn set_serial_word() -> Seq<u8> {
    seq![83u8, 69u8, 84u8, 45u8, 83u8, 69u8, 82u8, 73u8, 65u8, 76u8]
}

/// Folds one byte to ASCII upper case.
fn upper_byte(b: u8) -> (r: u8)
    ensures
        r == ascii_upper(b),
{
    if 97 <= b && b <= 122 {
        b - 32
    } else {
        b
    }
}

/// Compares a byte string against an upper-case word, ignoring ASCII case.
fn eq_ignore_ascii_case(s: &[u8], w: &[u8]) -> (r: bool)
    ensures
        r == matches_ignore_ascii_case(s@, w@),
{
    if s.len() != w.len() {
        return false;
    }
    let mut i: usize = 0;
    while i < s.len()
        invariant
            i <= s@.len(),
            s@.len() == w@.len(),
            forall|j: int| 0 <= j < i ==> ascii_upper(s@[j]) == w@[j],
        decreases s@.len() - i,
    {
        if upper_byte(s[i]) != w[i] {
            return false;
        }
        i = i + 1;
    }
    true
}

/// The bytes of "TERMIOS2", as a value.
fn termios2_bytes() -> (v: Vec<u8>)
    ensures
        v@ == termios2_word(),
{
    let mut v: Vec<u8> = Vec::new();
    v.push(84);
    v.push(69);
    v.push(82);
    v.push(77);
    v.push(73);
    v.push(79);
    v.push(83);
    v.push(50);
    proof {
        assert(v@ =~= termios2_word());
    }
    v
}

/// The bytes of "SET-SERIAL", as a value.
fn set_serial_bytes() -> (v: Vec<u8>)
    ensures
        v@ == set_serial_word(),
{
    let mut v: Vec<u8> = Vec::new();
    v.push(83);
    v.push(69);
    v.push(84);
    v.push(45);
    v.push(83);
    v.push(69);
    v.push(82);
    v.push(73);
    v.push(65);
    v.push(76);
    proof {
        assert(v@ =~= set_serial_word());
    }
    v
}

impl Mode {
    /// Parses a mode name, ignoring ASCII case: "termios2" selects the
    /// extended-termios strategy, "set-serial" the legacy one, and any
    /// other string is rejected.
    pub fn from_str(s: &str) -> (r: Result<Mode, String>)
        ensures
            r == Ok::<Mode, String>(Mode::Termios2) <==> matches_ignore_ascii_case(
                s.spec_bytes(),
                termios2_word(),
            ),
            r == Ok::<Mode, String>(Mode::SetSerial) <==> matches_ignore_ascii_case(
                s.spec_bytes(),
                set_serial_word(),
            ),
            r matches Err(m) ==> m@ == "invalid mode"@,
    {
        let bs = s.as_bytes();
        let w1 = termios2_bytes();
        if eq_ignore_ascii_case(bs, w1.as_slice()) {
            return Ok(Mode::Termios2);
        }
        let w2 = set_serial_bytes();
        if eq_ignore_ascii_case(bs, w2.as_slice()) {
            return Ok(Mode::SetSerial);
        }
        Err("invalid mode".to_owned())
    }
}

/// The terminal-attribute fields the bridge reads and rewrites, as plain
/// values. A snapshot of the real structure is taken outside the library;
/// these fields are copied out of it, transformed here, and copied back.
#[derive(Clone, Copy, Debug, PartialEq, Eq, Structural)]
pub struct TermiosState {
    pub c_iflag: u32,
    pub c_oflag: u32,
    pub c_cflag: u32,
    pub c_lflag: u32,
    pub c_ispeed: u32,
    pub c_ospeed: u32,
}

/// The serial-line structure fields the bridge reads and rewrites.
#[derive(Clone, Copy, Debug, PartialEq, Eq, Structural)]
pub struct SerialState {
    pub baud_base: u32,
    pub custom_divisor: u32,
    pub flags: u32,
}

/// Input flags after disabling software flow control and the break, parity
/// and newline special handling, leaving raw input.
pub open spec fn raw_iflag(i: u32) -> u32 {
    (i & !(IXON | IXOFF | IXANY)) & !(IGNBRK | BRKINT | PARMRK | ISTRIP | INLCR | IGNCR | ICRNL)
}

/// Output flags after disabling post-processing.
pub open spec fn raw_oflag(o: u32) -> u32 {
    o & !(OPOST | ONLCR)
}

/// Local flags after disabling canonical input, echo and signal generation.
pub open spec fn raw_lflag(l: u32) -> u32 {
    l & !(ICANON | ECHO | ECHOE | ECHONL | ISIG)
}

/// Control flags for 8 data bits, 2 stop bits, receiver enabled, local mode,
/// no parity, no hardware flow control — with the baud bits cleared and the
/// extended-speed bit set, so the explicit speed fields take effect.
pub open spec fn dmx_cflag_extended(c: u32) -> u32 {
    (c & !(PARENB | CSIZE | CRTSCTS | CBAUD)) | (CSTOPB | CS8 | CREAD | CLOCAL | CBAUDEX)
}

/// The same raw 8N2 control flags, but with the nominal rate pinned to
/// B38400, which the legacy driver interprets as "use the custom divisor".
pub open spec fn dmx_cflag_b38400(c: u32) -> u32 {
    (c & !(PARENB | CSIZE | CRTSCTS | CBAUD)) | (CSTOPB | CS8 | CREAD | CLOCAL | B38400)
}

/// What the raw flag masks achieve, bit by bit: software flow control and
/// the break, parity and newline special handling are off on input, output
/// post-processing is off, and canonical mode, echo and signal generation
/// are off locally.
pub proof fn lemma_raw_flags_disable(i: u32, o: u32, l: u32)
    ensures
        raw_iflag(i) & (IXON | IXOFF | IXANY) == 0,
        raw_iflag(i) & (IGNBRK | BRKINT | PARMRK | ISTRIP | INLCR | IGNCR | ICRNL) == 0,
        raw_oflag(o) & (OPOST | ONLCR) == 0,
        raw_lflag(l) & (ICANON | ECHO | ECHOE | ECHONL | ISIG) == 0,
{
    assert(((i & !(0x400u32 | 0x1000u32 | 0x800u32)) & !(0x1u32 | 0x2u32 | 0x8u32 | 0x20u32
        | 0x40u32 | 0x80u32 | 0x100u32)) & (0x400u32 | 0x1000u32 | 0x800u32) == 0)
        by (bit_vector);
    assert(((i & !(0x400u32 | 0x1000u32 | 0x800u32)) & !(0x1u32 | 0x2u32 | 0x8u32 | 0x20u32
        | 0x40u32 | 0x80u32 | 0x100u32)) & (0x1u32 | 0x2u32 | 0x8u32 | 0x20u32 | 0x40u32 | 0x80u32
        | 0x100u32) == 0) by (bit_vector);
    assert((o & !(0x1u32 | 0x4u32)) & (0x1u32 | 0x4u32) == 0) by (bit_vector);
    assert((l & !(0x2u32 | 0x8u32 | 0x10u32 | 0x40u32 | 0x1u32)) & (0x2u32 | 0x8u32 | 0x10u32
        | 0x40u32 | 0x1u32) == 0) by (bit_vector);
}

/// What the extended control flags achieve, bit by bit: parity off, eight
/// data bits, two stop bits, receiver on, local mode on, hardware flow
/// control off, and of the baud bits exactly the extended-speed bit — so
/// the explicit speed fields govern the rate.
pub proof fn lemma_dmx_cflag_extended_bits(c: u32)
    ensures
        dmx_cflag_extended(c) & PARENB == 0,
        dmx_cflag_extended(c) & CSIZE == CS8,
        dmx_cflag_extended(c) & CSTOPB == CSTOPB,
        dmx_cflag_extended(c) & CREAD == CREAD,
        dmx_cflag_extended(c) & CLOCAL == CLOCAL,
        dmx_cflag_extended(c) & CRTSCTS == 0,
        dmx_cflag_extended(c) & CBAUD == CBAUDEX,
{
    let r = (c & !(0x100u32 | 0x30u32 | 0x80000000u32 | 0x100Fu32)) | (0x40u32 | 0x30u32 | 0x80u32
        | 0x800u32 | 0x1000u32);
    assert(r & 0x100u32 == 0 && r & 0x30u32 == 0x30u32 && r & 0x40u32 == 0x40u32 && r & 0x80u32
        == 0x80u32 && r & 0x800u32 == 0x800u32 && r & 0x80000000u32 == 0 && r & 0x100Fu32
        == 0x1000u32) by (bit_vector)
        requires
            r == (c & !(0x100u32 | 0x30u32 | 0x80000000u32 | 0x100Fu32)) | (0x40u32 | 0x30u32
                | 0x80u32 | 0x800u32 | 0x1000u32),
    ;
}

/// What the legacy control flags achieve: the same raw 8N2 framing, with
/// the baud bits holding exactly the nominal B38400 value the driver
/// interprets as "use the custom divisor".
pub proof fn lemma_dmx_cflag_b38400_bits(c: u32)
    ensures
        dmx_cflag_b38400(c) & PARENB == 0,
        dmx_cflag_b38400(c) & CSIZE == CS8,
        dmx_cflag_b38400(c) & CSTOPB == CSTOPB,
        dmx_cflag_b38400(c) & CREAD == CREAD,
        dmx_cflag_b38400(c) & CLOCAL == CLOCAL,
        dmx_cflag_b38400(c) & CRTSCTS == 0,
        dmx_cflag_b38400(c) & CBAUD == B38400,
{
    let r = (c & !(0x100u32 | 0x30u32 | 0x80000000u32 | 0x100Fu32)) | (0x40u32 | 0x30u32 | 0x80u32
        | 0x800u32 | 0xFu32);
    assert(r & 0x100u32 == 0 && r & 0x30u32 == 0x30u32 && r & 0x40u32 == 0x40u32 && r & 0x80u32
        == 0x80u32 && r & 0x800u32 == 0x800u32 && r & 0x80000000u32 == 0 && r & 0x100Fu32
        == 0xFu32) by (bit_vector)
        requires
            r == (c & !(0x100u32 | 0x30u32 | 0x80000000u32 | 0x100Fu32)) | (0x40u32 | 0x30u32
                | 0x80u32 | 0x800u32 | 0xFu32),
    ;
}

/// The extended-termios strategy's target state: raw 8N2 framing with both
/// explicit speed fields set to the DMX bit rate.
pub open spec fn dmx_termios_extended_spec(t: TermiosState) -> TermiosState {
    TermiosState {
        c_iflag: raw_iflag(t.c_iflag),
        c_oflag: raw_oflag(t.c_oflag),
        c_cflag: dmx_cflag_extended(t.c_cflag),
        c_lflag: raw_lflag(t.c_lflag),
        c_ispeed: DMX_BAUD,
        c_ospeed: DMX_BAUD,
    }
}

/// The legacy strategy's target terminal state: raw 8N2 framing at nominal
/// B38400, speed fields left as they were.
pub open spec fn dmx_termios_b38400_spec(t: TermiosState) -> TermiosState {
    TermiosState {
        c_iflag: raw_iflag(t.c_iflag),
        c_oflag: raw_oflag(t.c_oflag),
        c_cflag: dmx_cflag_b38400(t.c_cflag),
        c_lflag: raw_lflag(t.c_lflag),
        c_ispeed: t.c_ispeed,
        c_ospeed: t.c_ospeed,
    }
}

/// Computes the extended-termios strategy's target state from the current
/// attributes.
pub fn dmx_termios_extended(current: &TermiosState) -> (target: TermiosState)
    ensures
        target == dmx_termios_extended_spec(*current),
{
    TermiosState {
        c_iflag: (current.c_iflag & !(IXON | IXOFF | IXANY))
            & !(IGNBRK | BRKINT | PARMRK | ISTRIP | INLCR | IGNCR | ICRNL),
        c_oflag: current.c_oflag & !(OPOST | ONLCR),
        c_cflag: (current.c_cflag & !(PARENB | CSIZE | CRTSCTS | CBAUD))
            | (CSTOPB | CS8 | CREAD | CLOCAL | CBAUDEX),
        c_lflag: current.c_lflag & !(ICANON | ECHO | ECHOE | ECHONL | ISIG),
        c_ispeed: DMX_BAUD,
        c_ospeed: DMX_BAUD,
    }
}

/// Computes the legacy strategy's target terminal state from the current
/// attributes.
pub fn dmx_termios_b38400(current: &TermiosState) -> (target: TermiosState)
    ensures
        target == dmx_termios_b38400_spec(*current),
{
    TermiosState {
        c_iflag: (current.c_iflag & !(IXON | IXOFF | IXANY))
            & !(IGNBRK | BRKINT | PARMRK | ISTRIP | INLCR | IGNCR | ICRNL),
        c_oflag: current.c_oflag & !(OPOST | ONLCR),
        c_cflag: (current.c_cflag & !(PARENB | CSIZE | CRTSCTS | CBAUD))
            | (CSTOPB | CS8 | CREAD | CLOCAL | B38400),
        c_lflag: current.c_lflag & !(ICANON | ECHO | ECHOE | ECHONL | ISIG),
        c_ispeed: current.c_ispeed,
        c_ospeed: current.c_ospeed,
    }
}

/// The divisor that derives the DMX bit rate from the hardware base clock.
/// A base clock below the DMX rate cannot derive it at all (the divisor
/// would be zero), which is an error — never a silent fallback.
pub fn compute_divisor(baud_base: u32) -> (r: Result<u32, BridgeError>)
    ensures
        baud_base >= DMX_BAUD ==> r == Ok::<u32, BridgeError>(baud_base / DMX_BAUD),
        baud_base < DMX_BAUD ==> r == Err::<u32, BridgeError>(BridgeError::InvalidDivisor),
{
    let divisor = baud_base / DMX_BAUD;
    if divisor == 0 {
        assert(baud_base < DMX_BAUD) by (nonlinear_arith)
            requires divisor == baud_base / DMX_BAUD && divisor == 0 && DMX_BAUD == 250000u32;
        Err(BridgeError::InvalidDivisor)
    } else {
        assert(baud_base >= DMX_BAUD) by (nonlinear_arith)
            requires divisor == baud_base / DMX_BAUD && divisor != 0 && DMX_BAUD == 250000u32;
        Ok(divisor)
    }
}

/// The rate the hardware will actually achieve with the computed divisor:
/// `baud_base / divisor`, generally only approximately the DMX rate.
pub fn achieved_baud(baud_base: u32) -> (r: u32)
    requires
        baud_base >= DMX_BAUD,
    ensures
        r == baud_base / (baud_base / DMX_BAUD),
{
    let divisor = baud_base / DMX_BAUD;
    assert(divisor >= 1) by (nonlinear_arith)
        requires divisor == baud_base / DMX_BAUD && baud_base >= DMX_BAUD && DMX_BAUD == 250000u32;
    baud_base / divisor
}

/// What teardown must write back: the pre-configuration snapshots, captured
/// at open time and replayed exactly once at close time.
#[derive(Clone, Copy, Debug, PartialEq, Eq, Structural)]
pub enum ResetPlan {
    /// The extended-termios strategy only rewrites terminal attributes.
    ExtendedTermios { prior: TermiosState },
    /// The legacy strategy rewrites terminal attributes and the serial-line
    /// structure, so both snapshots are kept.
    LegacySerial { prior_serial: SerialState, prior_termios: TermiosState },
}

/// One write performed during teardown.
#[derive(Clone, Copy, Debug, PartialEq, Eq, Structural)]
pub enum RestoreAction {
    /// Write terminal attributes back through the extended interface.
    SetExtendedAttrs(TermiosState),
    /// Write terminal attributes back through the plain interface.
    SetAttrs(TermiosState),
    /// Write the serial-line structure back.
    SetSerial(SerialState),
}

/// The reversal record the extended-termios strategy captures.
pub open spec fn extended_plan_spec(current: TermiosState) -> ResetPlan {
    ResetPlan::ExtendedTermios { prior: current }
}

/// The reversal record the legacy strategy captures.
pub open spec fn legacy_plan_spec(current_t: TermiosState, current_s: SerialState) -> ResetPlan {
    ResetPlan::LegacySerial { prior_serial: current_s, prior_termios: current_t }
}

/// The writes teardown performs for a reversal record: terminal attributes
/// always, and for the legacy record the serial-line structure afterwards —
/// in that order, so a stale attribute set cannot overwrite the restored
/// serial-line state.
pub open spec fn restore_sequence_spec(plan: ResetPlan) -> Seq<RestoreAction> {
    match plan {
        ResetPlan::ExtendedTermios { prior } => seq![RestoreAction::SetExtendedAttrs(prior)],
        ResetPlan::LegacySerial { prior_serial, prior_termios } => seq![
            RestoreAction::SetAttrs(prior_termios),
            RestoreAction::SetSerial(prior_serial),
        ],
    }
}

/// Plans the extended-termios strategy: the state to apply, and the
/// reversal record holding exactly the state found.
pub fn plan_extended_termios(current: &TermiosState) -> (r: (TermiosState, ResetPlan))
    ensures
        r.0 == dmx_termios_extended_spec(*current),
        r.1 == extended_plan_spec(*current),
{
    (dmx_termios_extended(current), ResetPlan::ExtendedTermios { prior: *current })
}

/// Plans the legacy strategy: the terminal state to apply, the serial-line
/// structure to write (custom divisor plus the custom-speed and low-latency
/// flags), and the reversal record holding exactly the state found. Fails
/// if the base clock cannot derive the DMX rate.
pub fn plan_legacy_serial(current_t: &TermiosState, current_s: &SerialState) -> (r: Result<
    (TermiosState, SerialState, ResetPlan),
    BridgeError,
>)
    ensures
        current_s.baud_base >= DMX_BAUD ==> (r matches Ok(p) && {
            &&& p.0 == dmx_termios_b38400_spec(*current_t)
            &&& p.1 == (SerialState {
                baud_base: current_s.baud_base,
                custom_divisor: current_s.baud_base / DMX_BAUD,
                flags: ASYNC_SPD_CUST | ASYNC_LOW_LATENCY,
            })
            &&& p.2 == legacy_plan_spec(*current_t, *current_s)
        }),
        current_s.baud_base < DMX_BAUD ==> r == Err::<(TermiosState, SerialState, ResetPlan),
            BridgeError,
        >(BridgeError::InvalidDivisor),
{
    let divisor = match compute_divisor(current_s.baud_base) {
        Ok(d) => d,
        Err(e) => {
            return Err(e);
        },
    };
    let target_t = dmx_termios_b38400(current_t);
    let target_s = SerialState {
        baud_base: current_s.baud_base,
        custom_divisor: divisor,
        flags: ASYNC_SPD_CUST | ASYNC_LOW_LATENCY,
    };
    Ok((target_t, target_s, ResetPlan::LegacySerial {
        prior_serial: *current_s,
        prior_termios: *current_t,
    }))
}

/// Materializes the teardown writes for a reversal record.
pub fn restore_sequence(plan: &ResetPlan) -> (steps: Vec<RestoreAction>)
    ensures
        steps@ == restore_sequence_spec(*plan),
{
    let mut steps: Vec<RestoreAction> = Vec::new();
    match plan {
        ResetPlan::ExtendedTermios { prior } => {
            steps.push(RestoreAction::SetExtendedAttrs(*prior));
        },
        ResetPlan::LegacySerial { prior_serial, prior_termios } => {
            steps.push(RestoreAction::SetAttrs(*prior_termios));
            steps.push(RestoreAction::SetSerial(*prior_serial));
        },
    }
    proof {
        assert(steps@ =~= restore_sequence_spec(*plan));
    }
    steps
}

/// Teardown restores exactly what open captured: for either strategy, the
/// writes replayed at close are the unmodified pre-configuration snapshots
/// — never the DMX state, never a mixture — and for the legacy record the
/// terminal attributes come first.
pub proof fn lemma_teardown_restores_prior(current_t: TermiosState, current_s: SerialState)
    ensures
        restore_sequence_spec(extended_plan_spec(current_t)) =~= seq![
            RestoreAction::SetExtendedAttrs(current_t),
        ],
        restore_sequence_spec(legacy_plan_spec(current_t, current_s)) =~= seq![
            RestoreAction::SetAttrs(current_t),
            RestoreAction::SetSerial(current_s),
        ],
{
}

/// The port's lifecycle record: which descriptor is open and what teardown
/// must replay. The descriptor number is carried as a plain value; the
/// system calls on it happen outside the library.
pub struct PortState {
    pub fd: i32,
    pub plan: ResetPlan,
    pub is_open: bool,
}

impl PortState {
    /// Records a freshly configured port.
    pub fn attach(fd: i32, plan: ResetPlan) -> (p: PortState)
        ensures
            p.fd == fd,
            p.plan == plan,
            p.is_open,
    {
        PortState { fd, plan, is_open: true }
    }

    /// Consumes the one chance to tear the port down: the first call hands
    /// back the exact restore writes, every later call hands back nothing,
    /// so the reversal record is replayed at most once.
    pub fn teardown(&mut self) -> (r: Option<Vec<RestoreAction>>)
        ensures
            !final(self).is_open,
            final(self).fd == old(self).fd,
            final(self).plan == old(self).plan,
            old(self).is_open ==> (r matches Some(steps) && steps@ == restore_sequence_spec(
                old(self).plan,
            )),
            !old(self).is_open ==> r is None,
    {
        if self.is_open {
            self.is_open = false;
            Some(restore_sequence(&self.plan))
        } else {
            None
        }
    }
}

} // verus!
