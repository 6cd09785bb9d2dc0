use serial_connection::config::{DataBits, FlowControl, Parity, StopBits, TransmissionProfile};
use serial_connection::driver::port_builder;
use std::time::Duration;

fn plain(baud_rate: u32) -> TransmissionProfile {
    TransmissionProfile {
        baud_rate,
        data_bits: DataBits::Eight,
        flow_control: FlowControl::Disabled,
        parity: Parity::Disabled,
        stop_bits: StopBits::One,
        timeout_ms: 0,
    }
}

#[test]
fn builder_of_the_driver_defaults_is_the_new_builder() {
    assert_eq!(port_builder("/dev/ttyUSB0", &plain(9600)), serialport::new("/dev/ttyUSB0", 9600));
}

#[test]
fn builder_keeps_path_and_baud_rate() {
    assert_ne!(port_builder("/dev/ttyUSB0", &plain(9600)), serialport::new("/dev/ttyUSB1", 9600));
    assert_ne!(port_builder("/dev/ttyUSB0", &plain(9600)), serialport::new("/dev/ttyUSB0", 19200));
    assert_eq!(port_builder("", &plain(0)), serialport::new("", 0));
}

#[test]
fn builder_of_the_resolved_defaults() {
    let profile = TransmissionProfile::resolve(9600, None, None, None, None, None);
    let expected = serialport::new("COM_TEST", 9600)
        .data_bits(serialport::DataBits::Eight)
        .flow_control(serialport::FlowControl::None)
        .parity(serialport::Parity::None)
        .stop_bits(serialport::StopBits::Two)
        .timeout(Duration::from_millis(200));
    assert_eq!(port_builder("COM_TEST", &profile), expected);
}

#[test]
fn builder_takes_each_data_bits() {
    let cases = [
        (DataBits::Five, serialport::DataBits::Five),
        (DataBits::Six, serialport::DataBits::Six),
        (DataBits::Seven, serialport::DataBits::Seven),
        (DataBits::Eight, serialport::DataBits::Eight),
    ];
    for (ours, theirs) in cases {
        let profile = TransmissionProfile { data_bits: ours, ..plain(4800) };
        assert_eq!(port_builder("p", &profile), serialport::new("p", 4800).data_bits(theirs));
    }
}

#[test]
fn builder_takes_each_flow_control() {
    let cases = [
        (FlowControl::Disabled, serialport::FlowControl::None),
        (FlowControl::Software, serialport::FlowControl::Software),
        (FlowControl::Hardware, serialport::FlowControl::Hardware),
    ];
    for (ours, theirs) in cases {
        let profile = TransmissionProfile { flow_control: ours, ..plain(4800) };
        assert_eq!(port_builder("p", &profile), serialport::new("p", 4800).flow_control(theirs));
    }
}

#[test]
fn builder_takes_each_parity() {
    let cases = [
        (Parity::Disabled, serialport::Parity::None),
        (Parity::Odd, serialport::Parity::Odd),
        (Parity::Even, serialport::Parity::Even),
    ];
    for (ours, theirs) in cases {
        let profile = TransmissionProfile { parity: ours, ..plain(4800) };
        assert_eq!(port_builder("p", &profile), serialport::new("p", 4800).parity(theirs));
    }
}

#[test]
fn builder_takes_each_stop_bits() {
    let cases =
        [(StopBits::One, serialport::StopBits::One), (StopBits::Two, serialport::StopBits::Two)];
    for (ours, theirs) in cases {
        let profile = TransmissionProfile { stop_bits: ours, ..plain(4800) };
        assert_eq!(port_builder("p", &profile), serialport::new("p", 4800).stop_bits(theirs));
    }
}

#[test]
fn builder_takes_the_timeout_in_milliseconds() {
    for ms in [0u64, 1, 200, 999, 1000, 60_000, u64::MAX] {
        let profile = TransmissionProfile { timeout_ms: ms, ..plain(4800) };
        assert_eq!(
            port_builder("p", &profile),
            serialport::new("p", 4800).timeout(Duration::from_millis(ms))
        );
    }
}

#[test]
fn builder_with_every_setting_away_from_the_driver_default() {
    let profile = TransmissionProfile {
        baud_rate: 57600,
        data_bits: DataBits::Seven,
        flow_control: FlowControl::Hardware,
        parity: Parity::Odd,
        stop_bits: StopBits::Two,
        timeout_ms: 1234,
    };
    let expected = serialport::new("/dev/ttyS3", 57600)
        .data_bits(serialport::DataBits::Seven)
        .flow_control(serialport::FlowControl::Hardware)
        .parity(serialport::Parity::Odd)
        .stop_bits(serialport::StopBits::Two)
        .timeout(Duration::from_millis(1234));
    assert_eq!(port_builder("/dev/ttyS3", &profile), expected);
    assert_ne!(port_builder("/dev/ttyS3", &profile), serialport::new("/dev/ttyS3", 57600));
}
