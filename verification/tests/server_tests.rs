use pus::error::{get_err_code_n_data, Error, ERR_CODE_COUNT};
use pus::server::{
    create_func_id, handle_frame, pre_set_led, pre_turn_led, FuncMap, HkRegistry,
};
use pus::sp::get_service_type;
use pus::sp::service_1::{FailureNotice, ServiceFail, ServiceSuccess, StepId};
use pus::sp::service_3::service_3_1::Service3_1;
use pus::sp::service_3::service_3_25::Service3_25;
use pus::sp::service_8::Service8_1;
use pus::sp::tc::TcPacket;
use pus::sp::tm::TmPacket;
use pus::sp::SpacePacket;

type Handler = fn(&Vec<u8>) -> Result<(), Error>;
type Tc8_1 = SpacePacket<TcPacket<Service8_1>>;
type Tc3_1 = SpacePacket<TcPacket<Service3_1>>;
type Tm1_7 = SpacePacket<TmPacket<ServiceSuccess>>;
type Tm1_8 = SpacePacket<TmPacket<ServiceFail>>;
type Tm3_25 = SpacePacket<TmPacket<Service3_25>>;

fn handler_check_args(args: &Vec<u8>) -> Result<(), Error> {
    if args.len() == 1 && args[0] == 1 {
        Ok(())
    } else {
        Err(Error::InvalidArg)
    }
}

fn handler_fail(_args: &Vec<u8>) -> Result<(), Error> {
    Err(Error::PeripheralError)
}

fn led_table() -> FuncMap<Handler> {
    let mut table: FuncMap<Handler> = FuncMap::new();
    table.insert(create_func_id("turn_led"), handler_check_args as Handler);
    table.insert(create_func_id("set_led"), handler_fail as Handler);
    table
}

#[test]
fn exec_func_calls_the_registered_handler_with_the_decoded_args() {
    let tc = Tc8_1::new_service_8_1(2, 1, "turn_led".to_string(), 1, vec![1]).unwrap();
    let decoded = Tc8_1::from_bytes(&tc.to_bytes()).unwrap();
    let table = led_table();
    // handler_check_args only answers Ok when it got exactly [1]
    assert!(decoded.exec_func(&table).is_ok());

    let tc_bad = Tc8_1::new_service_8_1(2, 1, "turn_led".to_string(), 1, vec![9]).unwrap();
    let decoded_bad = Tc8_1::from_bytes(&tc_bad.to_bytes()).unwrap();
    assert!(matches!(decoded_bad.exec_func(&table), Err(Error::InvalidArg)));
}

#[test]
fn exec_func_rejects_an_unregistered_function_identifier() {
    let tc = Tc8_1::new_service_8_1(2, 1, "no_such_func".to_string(), 0, vec![]).unwrap();
    let table = led_table();
    match tc.exec_func(&table) {
        Err(Error::InvalidFuncId(name)) => {
            assert_eq!(name, create_func_id("no_such_func"));
        },
        _ => panic!("expected InvalidFuncId"),
    }
}

#[test]
fn handle_frame_acknowledges_a_successful_command_with_tm_1_7() {
    let tc = Tc8_1::new_service_8_1(2, 1, "turn_led".to_string(), 1, vec![1]).unwrap();
    let frame = tc.to_bytes();
    let table = led_table();
    let mut registry = HkRegistry::new();
    let out = handle_frame(&frame, &table, &mut registry, 0);
    let expected = Tm1_7::new_service_1_7(&tc, 42, 0).unwrap().to_bytes();
    assert_eq!(out.report, expected);
    assert!(out.timer_enable.is_none());
}

#[test]
fn handle_frame_acknowledges_a_failed_command_with_tm_1_8() {
    let tc = Tc8_1::new_service_8_1(2, 1, "set_led".to_string(), 2, vec![0, 1]).unwrap();
    let frame = tc.to_bytes();
    let table = led_table();
    let mut registry = HkRegistry::new();
    let out = handle_frame(&frame, &table, &mut registry, 0);
    // handler_fail answers PeripheralError, wire code 7 with no data
    let expected = Tm1_8::new_service_1_8(&tc, 0, 0, 7, vec![]).unwrap().to_bytes();
    assert_eq!(out.report, expected);
}

#[test]
fn handle_frame_reports_an_unknown_function_with_its_identifier() {
    let tc = Tc8_1::new_service_8_1(2, 1, "blink".to_string(), 0, vec![]).unwrap();
    let frame = tc.to_bytes();
    let table = led_table();
    let mut registry = HkRegistry::new();
    let out = handle_frame(&frame, &table, &mut registry, 0);
    let expected = Tm1_8::new_service_1_8(&tc, 0, 0, 6, create_func_id("blink"))
        .unwrap()
        .to_bytes();
    assert_eq!(out.report, expected);
}

#[test]
fn handle_frame_registers_a_housekeeping_structure_and_acknowledges() {
    let tc = Tc3_1::new_service_3_1(2, 0, 5, 0, 1, vec![0]).unwrap();
    let frame = tc.to_bytes();
    let table = led_table();
    let mut registry = HkRegistry::new();
    let out = handle_frame(&frame, &table, &mut registry, 0);
    let expected = Tm1_7::new_service_1_7(&tc, 42, 0).unwrap().to_bytes();
    assert_eq!(out.report, expected);
    assert_eq!(registry.entries.len(), 1);
    assert_eq!(registry.entries[0].definition.hk_id(), 5);
    assert!(!registry.entries[0].enabled);
}

#[test]
fn periodic_tick_skips_a_structure_disabled_by_tc_3_6() {
    let table = led_table();
    let mut registry = HkRegistry::new();

    // TC[3,1]: define housekeeping structure 5 sampling parameter 0
    let define = Tc3_1::new_service_3_1(2, 0, 5, 0, 1, vec![0]).unwrap();
    handle_frame(&define.to_bytes(), &table, &mut registry, 0);

    // TC[3,5]: enable periodic reporting for structure 5
    let enable = SpacePacket::new_service_3_5(2, 0, 1, vec![5]).unwrap();
    let out = handle_frame(&enable.to_bytes(), &table, &mut registry, 0);
    assert_eq!(out.timer_enable, Some(true));
    assert!(!registry.periodic_report(7).is_empty());

    // TC[3,6]: disable periodic reporting for structure 5
    let disable = SpacePacket::new_service_3_6(2, 0, 1, vec![5]).unwrap();
    let out = handle_frame(&disable.to_bytes(), &table, &mut registry, 0);
    assert_eq!(out.timer_enable, Some(false));

    // a subsequent periodic tick must not emit a report for id 5
    assert!(registry.periodic_report(7).is_empty());
}

#[test]
fn one_shot_report_emits_a_tm_3_25_with_the_sampled_value() {
    let table = led_table();
    let mut registry = HkRegistry::new();
    let define = Tc3_1::new_service_3_1(2, 0, 5, 0, 2, vec![0, 3]).unwrap();
    handle_frame(&define.to_bytes(), &table, &mut registry, 0);

    // parameter 0 samples the sensor value big-endian; parameter 3 is unknown and skipped
    let report = registry.one_shot_report(&vec![5], 0x1234);
    let expected = Tm3_25::new_service_3_25(42, 0, 5, vec![0x12, 0x34]).unwrap().to_bytes();
    assert_eq!(report, expected);

    // an identifier absent from the registry contributes nothing
    assert!(registry.one_shot_report(&vec![9], 0x1234).is_empty());
}

#[test]
fn handle_frame_one_shot_command_emits_report_then_acknowledgement() {
    let table = led_table();
    let mut registry = HkRegistry::new();
    let define = Tc3_1::new_service_3_1(2, 0, 5, 0, 1, vec![0]).unwrap();
    handle_frame(&define.to_bytes(), &table, &mut registry, 0);

    let one_shot = SpacePacket::new_service_3_27(2, 0, 1, vec![5]).unwrap();
    let out = handle_frame(&one_shot.to_bytes(), &table, &mut registry, 0xABCD);

    let mut expected = Tm3_25::new_service_3_25(42, 0, 5, vec![0xAB, 0xCD]).unwrap().to_bytes();
    expected.extend(Tm1_7::new_service_1_7(&one_shot, 42, 0).unwrap().to_bytes());
    assert_eq!(out.report, expected);
}

#[test]
fn handle_frame_emits_nothing_for_a_malformed_tc_8_1_frame() {
    let table = led_table();
    let mut registry = HkRegistry::new();
    let tc = Tc8_1::new_service_8_1(2, 1, "turn_led".to_string(), 1, vec![1]).unwrap();
    let mut frame = tc.to_bytes();
    // corrupt the function identifier with a non-ASCII byte
    frame[11] = 0xFF;
    let out = handle_frame(&frame, &table, &mut registry, 0);
    assert!(out.report.is_empty());
    assert!(out.timer_enable.is_none());
}

#[test]
fn handle_frame_ignores_an_unsupported_service_type() {
    let table = led_table();
    let mut registry = HkRegistry::new();
    // a raw frame whose service type byte is unknown
    let frame = vec![0x18, 0x02, 0xC0, 0x00, 0x00, 0x06, 0x20, 9, 9, 0, 0, 0, 0];
    let out = handle_frame(&frame, &table, &mut registry, 0);
    assert!(out.report.is_empty());
    assert!(out.timer_enable.is_none());
    assert_eq!(registry.entries.len(), 0);
}

#[test]
fn get_err_code_n_data_maps_every_variant_to_its_wire_code() {
    assert_eq!(get_err_code_n_data(Error::UnsupportedRequest).0, 0);
    assert_eq!(get_err_code_n_data(Error::InvalidPacket).0, 1);
    assert_eq!(get_err_code_n_data(Error::InvalidPacketName).0, 2);
    assert_eq!(get_err_code_n_data(Error::InvalidVersionNo).0, 3);
    assert_eq!(get_err_code_n_data(Error::CorruptData).0, 4);
    assert_eq!(get_err_code_n_data(Error::InvalidApid).0, 5);
    let (code, data) = get_err_code_n_data(Error::InvalidFuncId(create_func_id("x")));
    assert_eq!(code, 6);
    assert_eq!(data, create_func_id("x"));
    assert_eq!(get_err_code_n_data(Error::PeripheralError).0, 7);
    assert_eq!(get_err_code_n_data(Error::BorrowMutError).0, 8);
    assert_eq!(get_err_code_n_data(Error::NoneError).0, 9);
    assert_eq!(get_err_code_n_data(Error::UnitType).0, 10);
    assert_eq!(get_err_code_n_data(Error::InvalidArg).0, 11);
    assert_eq!(get_err_code_n_data(Error::CapacityError).0, 12);
}

#[test]
fn pre_turn_led_checks_the_argument_arity() {
    assert_eq!(pre_turn_led(&vec![1]).unwrap(), true);
    assert_eq!(pre_turn_led(&vec![0]).unwrap(), false);
    assert!(matches!(pre_turn_led(&vec![]), Err(Error::InvalidArg)));
    assert!(matches!(pre_turn_led(&vec![1, 2]), Err(Error::InvalidArg)));
}

#[test]
fn pre_set_led_checks_arity_and_led_number() {
    assert_eq!(pre_set_led(&vec![2, 1]).unwrap(), (2, true));
    assert_eq!(pre_set_led(&vec![0, 0]).unwrap(), (0, false));
    assert!(matches!(pre_set_led(&vec![3, 1]), Err(Error::InvalidArg)));
    assert!(matches!(pre_set_led(&vec![1]), Err(Error::InvalidArg)));
}

#[test]
fn create_func_id_pads_the_name_with_nul_bytes() {
    let id = create_func_id("turn_led");
    assert_eq!(id.len(), 16);
    assert_eq!(&id[0..8], b"turn_led");
    assert!(id[8..].iter().all(|&b| b == 0));
}

#[test]
fn get_service_type_reads_the_fixed_offsets() {
    let tc = Tc8_1::new_service_8_1(2, 1, "turn_led".to_string(), 1, vec![1]).unwrap();
    let bytes = tc.to_bytes();
    assert_eq!(get_service_type(&bytes).unwrap(), (8, 1));
    assert!(get_service_type(&bytes[0..11]).is_err());
}

#[test]
fn failure_notice_rejects_an_unknown_error_code() {
    assert!(FailureNotice::new(ERR_CODE_COUNT as u8, vec![]).is_err());
    assert!(FailureNotice::new(12, vec![]).is_ok());
    assert!(FailureNotice::from_bytes(&[13]).is_err());
    let notice = FailureNotice::from_bytes(&[4]).unwrap();
    assert_eq!(notice.err_code, 4);
    assert!(notice.err_data.is_empty());
}

#[test]
fn step_id_round_trips_through_its_two_bytes() {
    let step = StepId::new(0x0102).unwrap();
    let bytes = step.to_bytes();
    assert_eq!(bytes, vec![1, 2]);
    assert_eq!(StepId::from_bytes(&bytes).unwrap().step_id, 0x0102);
}
