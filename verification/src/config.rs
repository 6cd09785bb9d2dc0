//! Line settings and their resolution from optional raw values.
//!
//! Every raw value, supported or not, resolves to exactly one member of its
//! domain: resolution has no error path. A value that is missing or not
//! supported resolves to the default of its field.

use crate::text::text_equals;
use vstd::prelude::*;

verus! {

/// Timeout, in milliseconds, of a connection that was opened without one.
pub const DEFAULT_TIMEOUT_MS: u64 = 200;

/// Number of bits per character.
#[derive(Clone, Copy, Debug, PartialEq, Eq, Structural)]
pub enum DataBits {
    Five,
    Six,
    Seven,
    Eight,
}

/// Flow control mode.
#[derive(Clone, Copy, Debug, PartialEq, Eq, Structural)]
pub enum FlowControl {
    /// No flow control.
    Disabled,
    /// Flow control by XON/XOFF bytes.
    Software,
    /// Flow control by the RTS/CTS signals.
    Hardware,
}

/// Parity checking mode.
#[derive(Clone, Copy, Debug, PartialEq, Eq, Structural)]
pub enum Parity {
    /// No parity bit.
    Disabled,
    Odd,
    Even,
}

/// Number of stop bits after each character.
#[derive(Clone, Copy, Debug, PartialEq, Eq, Structural)]
pub enum StopBits {
    One,
    Two,
}

/// The line parameters of one connection, fixed while it is open.
#[derive(Clone, Copy, Debug, PartialEq, Eq, Structural)]
pub struct TransmissionProfile {
    pub baud_rate: u32,
    pub data_bits: DataBits,
    pub flow_control: FlowControl,
    pub parity: Parity,
    pub stop_bits: StopBits,
    /// Time to wait for a read or a write, in milliseconds.
    pub timeout_ms: u64,
}

impl DataBits {
    /// The character size as a number.
    pub open spec fn bits(self) -> nat {
        match self {
            DataBits::Five => 5,
            DataBits::Six => 6,
            DataBits::Seven => 7,
            DataBits::Eight => 8,
        }
    }

    /// The character size as a number.
    pub fn width(&self) -> (n: u8)
        ensures
            n == self.bits(),
    {
        match self {
            DataBits::Five => 5,
            DataBits::Six => 6,
            DataBits::Seven => 7,
            DataBits::Eight => 8,
        }
    }
}

impl StopBits {
    /// The number of stop bits.
    pub open spec fn bits(self) -> nat {
        match self {
            StopBits::One => 1,
            StopBits::Two => 2,
        }
    }

    /// The number of stop bits.
    pub fn count(&self) -> (n: u8)
        ensures
            n == self.bits(),
    {
        match self {
            StopBits::One => 1,
            StopBits::Two => 2,
        }
    }
}

/// The text of an optional string.
pub open spec fn text_of(value: Option<String>) -> Option<Seq<char>> {
    match value {
        Some(text) => Some(text@),
        None => None,
    }
}

/// The character size chosen for a raw value: 5 to 8 stand for themselves,
/// anything else, or nothing, for 8.
pub open spec fn data_bits_of(value: Option<usize>) -> DataBits {
    match value {
        Some(5) => DataBits::Five,
        Some(6) => DataBits::Six,
        Some(7) => DataBits::Seven,
        Some(8) => DataBits::Eight,
        _ => DataBits::Eight,
    }
}

/// The flow control chosen for a raw value: `Software` and `Hardware` stand
/// for themselves, anything else, or nothing, for none.
pub open spec fn flow_control_of(value: Option<Seq<char>>) -> FlowControl {
    match value {
        Some(name) => if name == "Software"@ {
            FlowControl::Software
        } else if name == "Hardware"@ {
            FlowControl::Hardware
        } else {
            FlowControl::Disabled
        },
        None => FlowControl::Disabled,
    }
}

/// The parity chosen for a raw value: `Odd` and `Even` stand for themselves,
/// anything else, or nothing, for none.
pub open spec fn parity_of(value: Option<Seq<char>>) -> Parity {
    match value {
        Some(name) => if name == "Odd"@ {
            Parity::Odd
        } else if name == "Even"@ {
            Parity::Even
        } else {
            Parity::Disabled
        },
        None => Parity::Disabled,
    }
}

/// The stop bits chosen for a raw value: 1 stands for itself, anything
/// else, or nothing, for 2.
pub open spec fn stop_bits_of(value: Option<usize>) -> StopBits {
    match value {
        Some(1) => StopBits::One,
        Some(2) => StopBits::Two,
        _ => StopBits::Two,
    }
}

/// The timeout chosen for a raw value: the value itself, or the default
/// where there is none.
pub open spec fn timeout_of(value: Option<u64>) -> u64 {
    match value {
        Some(ms) => ms,
        None => DEFAULT_TIMEOUT_MS,
    }
}

/// The profile that a baud rate and five optional raw values resolve to.
pub open spec fn profile_of(
    baud_rate: u32,
    data_bits: Option<usize>,
    flow_control: Option<Seq<char>>,
    parity: Option<Seq<char>>,
    stop_bits: Option<usize>,
    timeout: Option<u64>,
) -> TransmissionProfile {
    TransmissionProfile {
        baud_rate,
        data_bits: data_bits_of(data_bits),
        flow_control: flow_control_of(flow_control),
        parity: parity_of(parity),
        stop_bits: stop_bits_of(stop_bits),
        timeout_ms: timeout_of(timeout),
    }
}

/// Resolves the character size.
pub fn get_data_bits(value: Option<usize>) -> (bits: DataBits)
    ensures
        bits == data_bits_of(value),
{
    match value {
        Some(value) => match value {
            5 => DataBits::Five,
            6 => DataBits::Six,
            7 => DataBits::Seven,
            8 => DataBits::Eight,
            _ => DataBits::Eight,
        },
        None => DataBits::Eight,
    }
}

/// Resolves the flow control mode.
pub fn get_flow_control(value: Option<String>) -> (mode: FlowControl)
    ensures
        mode == flow_control_of(text_of(value)),
{
    match value {
        Some(value) => {
            let name = value.as_str();
            if text_equals(name, "Software") {
                FlowControl::Software
            } else if text_equals(name, "Hardware") {
                FlowControl::Hardware
            } else {
                FlowControl::Disabled
            }
        },
        None => FlowControl::Disabled,
    }
}

/// Resolves the parity mode.
pub fn get_parity(value: Option<String>) -> (mode: Parity)
    ensures
        mode == parity_of(text_of(value)),
{
    match value {
        Some(value) => {
            let name = value.as_str();
            if text_equals(name, "Odd") {
                Parity::Odd
            } else if text_equals(name, "Even") {
                Parity::Even
            } else {
                Parity::Disabled
            }
        },
        None => Parity::Disabled,
    }
}

/// Resolves the number of stop bits.
pub fn get_stop_bits(value: Option<usize>) -> (bits: StopBits)
    ensures
        bits == stop_bits_of(value),
{
    match value {
        Some(value) => match value {
            1 => StopBits::One,
            2 => StopBits::Two,
            _ => StopBits::Two,
        },
        None => StopBits::Two,
    }
}

/// Resolves the timeout, in milliseconds.
pub fn get_timeout(value: Option<u64>) -> (ms: u64)
    ensures
        ms == timeout_of(value),
{
    match value {
        Some(ms) => ms,
        None => DEFAULT_TIMEOUT_MS,
    }
}

impl TransmissionProfile {
    /// Resolves a baud rate and five optional raw values into a profile. The
    /// baud rate is taken as it is.
    pub fn resolve(
        baud_rate: u32,
        data_bits: Option<usize>,
        flow_control: Option<String>,
        parity: Option<String>,
        stop_bits: Option<usize>,
        timeout: Option<u64>,
    ) -> (profile: TransmissionProfile)
        ensures
            profile == profile_of(
                baud_rate,
                data_bits,
                text_of(flow_control),
                text_of(parity),
                stop_bits,
                timeout,
            ),
    {
        TransmissionProfile {
            baud_rate,
            data_bits: get_data_bits(data_bits),
            flow_control: get_flow_control(flow_control),
            parity: get_parity(parity),
            stop_bits: get_stop_bits(stop_bits),
            timeout_ms: get_timeout(timeout),
        }
    }
}

/// Whether a raw character size is one of the supported ones.
pub open spec fn supported_data_bits(value: Option<usize>) -> bool {
    value matches Some(n) && 5 <= n <= 8
}

/// Whether a raw mode names a flow control that is in use.
pub open spec fn supported_flow_control(value: Option<Seq<char>>) -> bool {
    value matches Some(name) && (name == "Software"@ || name == "Hardware"@)
}

/// Whether a raw mode names a parity that is in use.
pub open spec fn supported_parity(value: Option<Seq<char>>) -> bool {
    value matches Some(name) && (name == "Odd"@ || name == "Even"@)
}

/// Whether a raw number of stop bits is one of the supported ones.
pub open spec fn supported_stop_bits(value: Option<usize>) -> bool {
    value matches Some(n) && 1 <= n <= 2
}

/// A field whose raw value is missing or not supported resolves to its
/// default: 8 data bits, no flow control, no parity, 2 stop bits, 200 ms.
pub proof fn lemma_unsupported_values_resolve_to_defaults(
    data_bits: Option<usize>,
    flow_control: Option<Seq<char>>,
    parity: Option<Seq<char>>,
    stop_bits: Option<usize>,
    timeout: Option<u64>,
)
    ensures
        !supported_data_bits(data_bits) ==> data_bits_of(data_bits) == DataBits::Eight,
        !supported_flow_control(flow_control) ==> flow_control_of(flow_control)
            == FlowControl::Disabled,
        !supported_parity(parity) ==> parity_of(parity) == Parity::Disabled,
        !supported_stop_bits(stop_bits) ==> stop_bits_of(stop_bits) == StopBits::Two,
        timeout is None ==> timeout_of(timeout) == 200,
{
}

/// A supported number resolves to the setting of that number, and a
/// timeout to itself.
pub proof fn lemma_supported_values_resolve_to_themselves(
    data_bits: usize,
    stop_bits: usize,
    timeout: u64,
)
    ensures
        supported_data_bits(Some(data_bits)) ==> data_bits_of(Some(data_bits)).bits()
            == data_bits,
        supported_stop_bits(Some(stop_bits)) ==> stop_bits_of(Some(stop_bits)).bits()
            == stop_bits,
        timeout_of(Some(timeout)) == timeout,
{
}

} // verus!
