use uhd::double::Double;
use uhd::error::Error;
use uhd::receiver::info::{ReceiveInfo, ReceiveInfoC};
use uhd::transmitter::info::{TransmitInfo, TransmitInfoC};
use uhd::tune_request::{
    TuneRequest, TuneRequestPolicy, UHD_TUNE_REQUEST_POLICY_AUTO, UHD_TUNE_REQUEST_POLICY_MANUAL,
    UHD_TUNE_REQUEST_POLICY_NONE,
};
use uhd::tune_result::TuneResult;

fn double(value: f64) -> Double {
    Double::from_bits(value.to_bits())
}

#[test]
fn policy_codes() {
    assert_eq!(78, UHD_TUNE_REQUEST_POLICY_NONE);
    assert_eq!(65, UHD_TUNE_REQUEST_POLICY_AUTO);
    assert_eq!(77, UHD_TUNE_REQUEST_POLICY_MANUAL);
    assert_eq!(78, TuneRequestPolicy::Keep.c_policy());
    assert_eq!(65, TuneRequestPolicy::Auto.c_policy());
    assert_eq!(77, TuneRequestPolicy::Manual(double(1.0)).c_policy());
}

#[test]
fn policy_frequency() {
    assert_eq!(double(0.0), TuneRequestPolicy::Keep.frequency());
    assert_eq!(double(0.0), TuneRequestPolicy::Auto.frequency());
    assert_eq!(double(915e6), TuneRequestPolicy::Manual(double(915e6)).frequency());
}

#[test]
fn tune_request_with_frequency() {
    let request = TuneRequest::with_frequency(double(2.4e9));
    let c = request.as_c_request().unwrap();
    assert_eq!(2.4e9, f64::from_bits(c.target_freq.to_bits()));
    assert_eq!(UHD_TUNE_REQUEST_POLICY_AUTO, c.rf_freq_policy);
    assert_eq!(0.0, f64::from_bits(c.rf_freq.to_bits()));
    assert_eq!(UHD_TUNE_REQUEST_POLICY_AUTO, c.dsp_freq_policy);
    assert_eq!(0.0, f64::from_bits(c.dsp_freq.to_bits()));
    assert_eq!(b"\0", c.args.as_bytes_with_nul());
}

#[test]
fn tune_request_with_rf_frequency() {
    let request = TuneRequest::with_rf_frequency(double(2.4e9), double(2.4e9 + 10e6));
    let c = request.as_c_request().unwrap();
    assert_eq!(2.4e9, f64::from_bits(c.target_freq.to_bits()));
    assert_eq!(UHD_TUNE_REQUEST_POLICY_MANUAL, c.rf_freq_policy);
    assert_eq!(2.41e9, f64::from_bits(c.rf_freq.to_bits()));
    assert_eq!(UHD_TUNE_REQUEST_POLICY_AUTO, c.dsp_freq_policy);
    assert_eq!(0.0, f64::from_bits(c.dsp_freq.to_bits()));
}

#[test]
fn tune_request_setters() {
    let mut request = TuneRequest::with_frequency(double(100e6));
    request.set_rf_policy(TuneRequestPolicy::Keep);
    request.set_dsp_policy(TuneRequestPolicy::Manual(double(-25e3)));
    request.set_args("mode_n=integer".to_string());
    let c = request.as_c_request().unwrap();
    assert_eq!(100e6, f64::from_bits(c.target_freq.to_bits()));
    assert_eq!(UHD_TUNE_REQUEST_POLICY_NONE, c.rf_freq_policy);
    assert_eq!(0.0, f64::from_bits(c.rf_freq.to_bits()));
    assert_eq!(UHD_TUNE_REQUEST_POLICY_MANUAL, c.dsp_freq_policy);
    assert_eq!(-25e3, f64::from_bits(c.dsp_freq.to_bits()));
    assert_eq!(b"mode_n=integer\0", c.args.as_bytes_with_nul());
}

#[test]
fn tune_request_null_byte_in_args() {
    let mut request = TuneRequest::with_frequency(double(100e6));
    request.set_args("mode_n\0=integer".to_string());
    assert!(matches!(request.as_c_request(), Err(Error::NullByte(None))));
}

#[test]
fn tune_result_getters() {
    let result =
        TuneResult::from_native(double(1.0), double(2.0), double(3.0), double(4.0), double(5.0));
    assert_eq!(double(1.0), result.clipped_rf_freq());
    assert_eq!(double(2.0), result.target_rf_freq());
    assert_eq!(double(3.0), result.actual_rf_freq());
    assert_eq!(double(4.0), result.target_dsp_freq());
    assert_eq!(double(5.0), result.actual_dsp_freq());
}

#[test]
fn default_tune_result() {
    let result = TuneResult::default();
    assert_eq!(double(0.0), result.clipped_rf_freq());
    assert_eq!(double(0.0), result.target_rf_freq());
    assert_eq!(double(0.0), result.actual_rf_freq());
    assert_eq!(double(0.0), result.target_dsp_freq());
    assert_eq!(double(0.0), result.actual_dsp_freq());
}

fn tx_info_c() -> TransmitInfoC {
    TransmitInfoC {
        mboard_id: b"B210".to_vec(),
        mboard_name: b"MyB210".to_vec(),
        mboard_serial: b"30F1A2B".to_vec(),
        tx_id: b"FE-TX2 (0x0055)".to_vec(),
        tx_serial: b"".to_vec(),
        tx_subdev_name: b"FE-TX2".to_vec(),
        tx_subdev_spec: b"A:A".to_vec(),
        tx_antenna: b"TX/RX".to_vec(),
    }
}

#[test]
fn transmit_info_from_c() {
    let info = TransmitInfo::from_c(tx_info_c()).unwrap();
    assert_eq!("B210", info.motherboard_id());
    assert_eq!("MyB210", info.motherboard_name());
    assert_eq!("30F1A2B", info.motherboard_serial());
    assert_eq!("FE-TX2 (0x0055)", info.daughterboard_id());
    assert_eq!("", info.daughterboard_serial());
    assert_eq!("FE-TX2", info.subdev_name());
    assert_eq!("A:A", info.subdev_spec());
    assert_eq!("TX/RX", info.antenna());
}

#[test]
fn transmit_info_invalid_utf8() {
    let mut info_c = tx_info_c();
    info_c.tx_antenna = vec![0x54, 0xff];
    assert!(matches!(TransmitInfo::from_c(info_c), Err(Error::Utf8(None))));
    let mut info_c = tx_info_c();
    info_c.mboard_id = vec![0x80];
    assert!(matches!(TransmitInfo::from_c(info_c), Err(Error::Utf8(None))));
}

#[test]
fn receive_info_from_c() {
    let info_c = ReceiveInfoC {
        mboard_id: b"N210".to_vec(),
        mboard_name: b"lab".to_vec(),
        mboard_serial: b"E1R2".to_vec(),
        rx_id: b"SBX (0x0054)".to_vec(),
        rx_serial: b"12345".to_vec(),
        rx_subdev_name: b"SBXv3 RX".to_vec(),
        rx_subdev_spec: b"A:0".to_vec(),
        rx_antenna: b"RX2".to_vec(),
    };
    let info = ReceiveInfo::from_c(info_c).unwrap();
    assert_eq!("N210", info.motherboard_id());
    assert_eq!("lab", info.motherboard_name());
    assert_eq!("E1R2", info.motherboard_serial());
    assert_eq!("SBX (0x0054)", info.daughterboard_id());
    assert_eq!("12345", info.daughterboard_serial());
    assert_eq!("SBXv3 RX", info.subdev_name());
    assert_eq!("A:0", info.subdev_spec());
    assert_eq!("RX2", info.antenna());
}

#[test]
fn receive_info_invalid_utf8() {
    let info_c = ReceiveInfoC {
        mboard_id: b"N210".to_vec(),
        mboard_name: b"lab".to_vec(),
        mboard_serial: vec![0xc3],
        rx_id: b"SBX".to_vec(),
        rx_serial: b"12345".to_vec(),
        rx_subdev_name: b"SBXv3 RX".to_vec(),
        rx_subdev_spec: b"A:0".to_vec(),
        rx_antenna: b"RX2".to_vec(),
    };
    assert!(matches!(ReceiveInfo::from_c(info_c), Err(Error::Utf8(None))));
}
