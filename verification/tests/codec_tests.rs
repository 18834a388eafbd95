use pus::error::Error;
use pus::sp::service_3::service_3_1::Service3_1;
use pus::sp::service_3::service_3_25::Service3_25;
use pus::sp::service_3::service_3_27::Service3_27;
use pus::sp::service_3::service_3_5x6::Service3_5x6;
use pus::sp::tc::TcPacket;
use pus::sp::tm::TmPacket;
use pus::sp::service_1::{ServiceFail, ServiceSuccess};
use pus::sp::{PrimaryHeader, SpacePacket};

type Tc3_27 = SpacePacket<TcPacket<Service3_27>>;
type Tc3_5x6 = SpacePacket<TcPacket<Service3_5x6>>;
type Tm3_25 = SpacePacket<TmPacket<Service3_25>>;

#[test]
fn primary_header_example_encodes_to_the_expected_bytes() {
    let h = PrimaryHeader::new(0, true, true, 7, (true, true), 34, 26).unwrap();
    let bytes = h.to_bytes();
    assert_eq!(bytes, [0x18, 0x07, 0xC0, 0x22, 0x00, 0x1A]);
    let back = PrimaryHeader::from_bytes(&bytes).unwrap();
    assert_eq!(back.ver_no, 0);
    assert_eq!(back.type_flag, true);
    assert_eq!(back.sec_header_flag, true);
    assert_eq!(back.apid, 7);
    assert_eq!(back.seq_flags, (true, true));
    assert_eq!(back.packet_name, 34);
    assert_eq!(back.data_len, 26);
}

#[test]
fn primary_header_from_bytes_rejects_a_nonzero_version() {
    // same header bytes with the version bits set to 1
    let bytes = [0x38, 0x07, 0xC0, 0x22, 0x00, 0x1A];
    assert!(matches!(
        PrimaryHeader::from_bytes(&bytes),
        Err(Error::InvalidVersionNo)
    ));
    assert!(matches!(
        PrimaryHeader::from_bytes(&bytes[0..5]),
        Err(Error::InvalidPacket)
    ));
}

#[test]
fn primary_header_new_rejects_each_field_out_of_bounds() {
    assert!(PrimaryHeader::new(8, true, true, 7, (true, true), 34, 26).is_err());
    assert!(PrimaryHeader::new(0, true, true, 2048, (true, true), 34, 26).is_err());
    assert!(PrimaryHeader::new(0, true, true, 7, (true, true), 16384, 26).is_err());
    assert!(PrimaryHeader::new(7, true, true, 2047, (true, true), 16383, 26).is_ok());
}

#[test]
fn service_3_1_example_round_trips_to_an_identical_struct() {
    let tc1 = Service3_1::new(0, 0, 1, vec![1]).unwrap();
    let tc2 = Service3_1::from_bytes(&tc1.to_bytes()).unwrap();
    assert_eq!(tc2.housekeeping_report_id, 0);
    assert_eq!(tc2.collection_interval, 0);
    assert_eq!(tc2.n1, 1);
    assert_eq!(tc2.parameter_ids, vec![1]);
    assert_eq!(tc2.nfa, 0);
}

#[test]
fn service_3_1_rejects_a_count_that_does_not_match_the_list() {
    assert!(matches!(Service3_1::new(0, 0, 2, vec![1]), Err(Error::InvalidPacket)));
    assert!(matches!(Service3_1::new(0, 0, 0, vec![1]), Err(Error::InvalidPacket)));
    // declared count 2 with one identifier byte on the wire
    assert!(matches!(Service3_1::from_bytes(&[0, 0, 2, 1, 0]), Err(Error::InvalidPacket)));
    // fixed-array count must be 0
    assert!(matches!(Service3_1::from_bytes(&[0, 0, 1, 1, 9]), Err(Error::InvalidPacket)));
}

#[test]
fn service_3_27_rejects_a_count_that_does_not_match_the_list() {
    assert!(matches!(Service3_27::new(2, vec![1]), Err(Error::InvalidPacket)));
    assert!(Service3_27::new(1, vec![1]).is_ok());
    assert!(matches!(Service3_27::from_bytes(&[2, 1]), Err(Error::InvalidPacket)));
    assert!(Service3_27::from_bytes(&[1, 1]).is_ok());
}

#[test]
fn service_3_27_packet_round_trips() {
    let tc = Tc3_27::new_service_3_27(2, 3, 2, vec![5, 6]).unwrap();
    let bytes = tc.to_bytes();
    let back = Tc3_27::from_bytes(&bytes).unwrap();
    assert_eq!(back.to_bytes(), bytes);
    assert_eq!(back.get_hk_report_struct_ids(), &vec![5, 6]);
}

#[test]
fn service_3_5x6_count_mismatch_is_rejected_on_construction_and_decode() {
    assert!(Tc3_5x6::new_service_3_5(2, 0, 2, vec![5]).is_err());
    let good = Tc3_5x6::new_service_3_5(2, 0, 1, vec![5]).unwrap();
    let mut bytes = good.to_bytes();
    // corrupt the declared count inside the payload
    bytes[11] = 2;
    assert!(Tc3_5x6::from_bytes_service_3_5x6(&bytes).is_err());
}

#[test]
fn service_3_5_decoder_reports_a_subtype_6_packet_as_corrupt() {
    let disable = Tc3_5x6::new_service_3_6(2, 0, 1, vec![5]).unwrap();
    let bytes = disable.to_bytes();
    assert!(Tc3_5x6::from_bytes_service_3_5x6(&bytes).is_ok());
    assert!(matches!(
        Tc3_5x6::from_bytes_service_3_5(&bytes),
        Err(Error::CorruptData)
    ));
    let enable = Tc3_5x6::new_service_3_5(2, 0, 1, vec![5]).unwrap();
    assert!(Tc3_5x6::from_bytes_service_3_5(&enable.to_bytes()).is_ok());
}

#[test]
fn service_3_25_rejects_an_empty_value_blob() {
    assert!(matches!(Service3_25::new(1, vec![]), Err(Error::InvalidPacket)));
    assert!(Service3_25::new(1, vec![7]).is_ok());
    assert!(Tm3_25::new_service_3_25(42, 0, 1, vec![]).is_err());
}

#[test]
fn service_3_25_packet_round_trips() {
    let tm = Tm3_25::new_service_3_25(42, 3, 9, vec![1, 2, 3]).unwrap();
    let bytes = tm.to_bytes();
    let back = Tm3_25::from_bytes(&bytes).unwrap();
    assert_eq!(back.to_bytes(), bytes);
    assert_eq!(back.get_parameter_values(), vec![1, 2, 3]);
}

#[test]
fn fail_report_with_error_data_does_not_decode_under_the_zero_length_table() {
    type Tc8_1 = SpacePacket<TcPacket<pus::sp::service_8::Service8_1>>;
    type Tm1_8 = SpacePacket<TmPacket<ServiceFail>>;
    let tc = Tc8_1::new_service_8_1(2, 1, "turn_led".to_string(), 1, vec![1]).unwrap();
    // an InvalidFuncId report carries the 16-byte identifier as error data,
    // but the per-code length table assigns length 0 to every code, so the
    // encoded report is not decodable
    let report = Tm1_8::new_service_1_8(&tc, 0, 0, 6, vec![0; 16]).unwrap();
    assert!(Tm1_8::from_bytes(&report.to_bytes()).is_err());
    // with no error data the same report round-trips
    let plain = Tm1_8::new_service_1_8(&tc, 0, 0, 6, vec![]).unwrap();
    let bytes = plain.to_bytes();
    assert_eq!(Tm1_8::from_bytes(&bytes).unwrap().to_bytes(), bytes);
}

#[test]
fn tm_report_decode_rejects_a_data_length_field_that_disagrees() {
    type Tc8_1 = SpacePacket<TcPacket<pus::sp::service_8::Service8_1>>;
    type Tm1_7 = SpacePacket<TmPacket<ServiceSuccess>>;
    let tc = Tc8_1::new_service_8_1(2, 1, "turn_led".to_string(), 1, vec![1]).unwrap();
    let report = Tm1_7::new_service_1_7(&tc, 42, 0).unwrap();
    let mut bytes = report.to_bytes();
    assert!(Tm1_7::from_bytes(&bytes).is_ok());
    // corrupt the data length field of the primary header
    bytes[5] = bytes[5].wrapping_add(1);
    assert!(Tm1_7::from_bytes(&bytes).is_err());
}

#[test]
fn service_8_1_rejects_a_function_name_that_does_not_fit() {
    type Tc8_1 = SpacePacket<TcPacket<pus::sp::service_8::Service8_1>>;
    let too_long = "a_name_longer_than_sixteen_bytes".to_string();
    assert!(matches!(
        Tc8_1::new_service_8_1(2, 1, too_long, 0, vec![]),
        Err(Error::InvalidFuncId(_))
    ));
}

#[test]
fn service_8_1_packet_round_trips() {
    type Tc8_1 = SpacePacket<TcPacket<pus::sp::service_8::Service8_1>>;
    let tc = Tc8_1::new_service_8_1(2, 1, "turn_led".to_string(), 1, vec![1, 2]).unwrap();
    let bytes = tc.to_bytes();
    let back = Tc8_1::from_bytes(&bytes).unwrap();
    assert_eq!(back.to_bytes(), bytes);
    // a truncated frame is rejected
    assert!(Tc8_1::from_bytes(&bytes[0..29]).is_err());
}
