//! Port descriptions for the serial driver.
//!
//! The driver opens a port from a `SerialPortBuilder`, a record of the
//! device path and the line settings whose fields are private to the driver.
//! This module makes such a record from a path and a resolved profile. The
//! items marked `external_body` are not proved: each one says what the
//! driver's source shows of the function that it calls.

use crate::config::{DataBits, FlowControl, Parity, StopBits, TransmissionProfile};
use serialport::SerialPortBuilder;
use std::time::Duration;
use vstd::prelude::*;

verus! {

/// The driver's description of a port to open, `serialport::SerialPortBuilder`.
/// Nothing inside it is visible here.
#[verifier::external_type_specification]
#[verifier::external_body]
pub struct ExSerialPortBuilder(SerialPortBuilder);

/// What a port description holds, in the terms of this library.
pub struct PortSettings {
    /// The text of the device path.
    pub path: Seq<char>,
    pub baud_rate: u32,
    /// The driver's character size of the same name.
    pub data_bits: DataBits,
    /// The driver's flow control of the same name, `Disabled` for its `None`.
    pub flow_control: FlowControl,
    /// The driver's parity of the same name, `Disabled` for its `None`.
    pub parity: Parity,
    /// The driver's number of stop bits of the same name.
    pub stop_bits: StopBits,
    /// The timeout in whole milliseconds.
    pub timeout_ms: u64,
}

/// The settings that a port description of the driver holds in its seven
/// private fields. It has no definition here: what is known of it is what
/// the functions below say of the descriptions that they return.
pub uninterp spec fn port_settings(builder: SerialPortBuilder) -> PortSettings;

/// The settings that describe the device at `path` under `profile`.
pub open spec fn settings_for(path: Seq<char>, profile: TransmissionProfile) -> PortSettings {
    PortSettings {
        path,
        baud_rate: profile.baud_rate,
        data_bits: profile.data_bits,
        flow_control: profile.flow_control,
        parity: profile.parity,
        stop_bits: profile.stop_bits,
        timeout_ms: profile.timeout_ms,
    }
}

/// Calls `serialport::new`. The description that it returns holds the path
/// and the baud rate given, and the driver's initial settings: 8 data bits,
/// no flow control, no parity, 1 stop bit and a timeout of zero.
#[verifier::external_body]
fn new_builder(path: &str, baud_rate: u32) -> (builder: SerialPortBuilder)
    ensures
        port_settings(builder) == (PortSettings {
            path: path@,
            baud_rate,
            data_bits: DataBits::Eight,
            flow_control: FlowControl::Disabled,
            parity: Parity::Disabled,
            stop_bits: StopBits::One,
            timeout_ms: 0,
        }),
{
    serialport::new(path, baud_rate)
}

/// Calls `SerialPortBuilder::data_bits`, which sets the character size and
/// leaves the other settings as they were.
#[verifier::external_body]
fn with_data_bits(builder: SerialPortBuilder, bits: DataBits) -> (changed: SerialPortBuilder)
    ensures
        port_settings(changed) == (PortSettings { data_bits: bits, ..port_settings(builder) }),
{
    builder.data_bits(
        match bits {
            DataBits::Five => serialport::DataBits::Five,
            DataBits::Six => serialport::DataBits::Six,
            DataBits::Seven => serialport::DataBits::Seven,
            DataBits::Eight => serialport::DataBits::Eight,
        },
    )
}

/// Calls `SerialPortBuilder::flow_control`, which sets the flow control mode
/// and leaves the other settings as they were.
#[verifier::external_body]
fn with_flow_control(builder: SerialPortBuilder, mode: FlowControl) -> (changed:
    SerialPortBuilder)
    ensures
        port_settings(changed) == (PortSettings { flow_control: mode, ..port_settings(builder) }),
{
    builder.flow_control(
        match mode {
            FlowControl::Disabled => serialport::FlowControl::None,
            FlowControl::Software => serialport::FlowControl::Software,
            FlowControl::Hardware => serialport::FlowControl::Hardware,
        },
    )
}

/// Calls `SerialPortBuilder::parity`, which sets the parity mode and leaves
/// the other settings as they were.
#[verifier::external_body]
fn with_parity(builder: SerialPortBuilder, mode: Parity) -> (changed: SerialPortBuilder)
    ensures
        port_settings(changed) == (PortSettings { parity: mode, ..port_settings(builder) }),
{
    builder.parity(
        match mode {
            Parity::Disabled => serialport::Parity::None,
            Parity::Odd => serialport::Parity::Odd,
            Parity::Even => serialport::Parity::Even,
        },
    )
}

/// Calls `SerialPortBuilder::stop_bits`, which sets the number of stop bits
/// and leaves the other settings as they were.
#[verifier::external_body]
fn with_stop_bits(builder: SerialPortBuilder, bits: StopBits) -> (changed: SerialPortBuilder)
    ensures
        port_settings(changed) == (PortSettings { stop_bits: bits, ..port_settings(builder) }),
{
    builder.stop_bits(
        match bits {
            StopBits::One => serialport::StopBits::One,
            StopBits::Two => serialport::StopBits::Two,
        },
    )
}

/// Calls `SerialPortBuilder::timeout` with a duration of `timeout_ms`
/// milliseconds, which sets the timeout and leaves the other settings as
/// they were.
#[verifier::external_body]
fn with_timeout(builder: SerialPortBuilder, timeout_ms: u64) -> (changed: SerialPortBuilder)
    ensures
        port_settings(changed) == (PortSettings { timeout_ms, ..port_settings(builder) }),
{
    builder.timeout(Duration::from_millis(timeout_ms))
}

/// Describes to the driver the device at `path` with the line settings of
/// `profile`.
pub fn port_builder(path: &str, profile: &TransmissionProfile) -> (builder: SerialPortBuilder)
    ensures
        port_settings(builder) == settings_for(path@, *profile),
{
    let builder = new_builder(path, profile.baud_rate);
    let builder = with_data_bits(builder, profile.data_bits);
    let builder = with_flow_control(builder, profile.flow_control);
    let builder = with_parity(builder, profile.parity);
    let builder = with_stop_bits(builder, profile.stop_bits);
    with_timeout(builder, profile.timeout_ms)
}

} // verus!
