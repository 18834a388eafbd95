use pus::bits::get_bits_u32;
use pus::packets::SpacePacket;

#[test]
fn get_bits_u32_test() {
    assert_eq!(0, get_bits_u32(12, 0, 1));
    assert_eq!(1, get_bits_u32(1, 31, 32));
    assert_eq!(11, get_bits_u32(22, 27, 31));
}

#[test]
fn new_test() {
    let ph_bytes = vec![0x18, 0x07, 0xc0, 0x22, 0, 0x1a];

    let sp_data: Vec<u8> = vec![
        0, 0, 0x2A, 0, 0x1, 0, 0x1, 0x1, 0, 0x1, 0, 0, 0, 0, 0, 0, 0, 0, 0, 0x22, 0xC0, 0x1, 0x1,
        0x1, 0xD, 0xA7, 0xC,
    ];

    let sp = SpacePacket::new(0, true, true, 7, (true, true), 34, 26, sp_data).unwrap();

    for (i, byte) in sp.primary_header.to_bytes().iter().enumerate() {
        assert_eq!(ph_bytes[i], *byte);
    }

    let _sp = SpacePacket::new(9, true, true, 7, (true, true), 34, 26, vec![0; 27])
        .expect_err("Didn't give an error.");
    let _sp = SpacePacket::new(0, true, true, 2049, (true, true), 34, 26, vec![0; 27])
        .expect_err("Didn't give an error.");
    let _sp = SpacePacket::new(0, true, true, 7, (true, true), 1 << 14 + 1, 26, vec![0; 27])
        .expect_err("Didn't give an error.");
    let _sp = SpacePacket::new(0, true, true, 7, (true, true), 34, 27, vec![0; 27])
        .expect_err("Didn't give an error.");
    let _sp = SpacePacket::new(0, true, true, 7, (true, true), 34, 26, vec![0; 26])
        .expect_err("Didn't give an error.");
}

#[test]
fn from_bytes_test() {
    let mut arg1 = vec![0x18, 0x07, 0xc0, 0x22, 0, 0x1a];
    let mut data1 = vec![0; 27];
    arg1.append(&mut data1);
    let mut arg2 = vec![0x18, 0x07, 0xc0, 0x22, 0, 0x1a];
    let mut data2 = vec![0; 28];
    arg2.append(&mut data2);

    SpacePacket::from_bytes(&arg1).unwrap();
    SpacePacket::from_bytes(&arg2).expect_err("Didn't give error");
}

#[test]
fn getter_setters_test() {
    let mut sp = SpacePacket::new(0, false, false, 0, (false, false), 0, 0, vec![0]).unwrap();

    sp.set_apid(1).unwrap();
    assert_eq!(sp.get_apid(), 1);
    sp.set_apid(2050).expect_err("Didn't get an err");

    sp.set_packet_name(12).unwrap();
    assert_eq!(sp.get_packet_name(), 12);
    sp.set_packet_name(1 << 15).expect_err("Didn't get an err");

    sp.set_seq_flags(true, false);
    assert_eq!(sp.get_seq_flags(), (true, false));

    sp.set_sec_header_flag(true);
    assert_eq!(sp.get_sec_header_flag(), true);

    sp.set_ver_no(9).expect_err("Didn't get an error");
    sp.set_ver_no(1).unwrap();
    assert_eq!(1, sp.get_ver_no());

    assert_eq!(0, sp.get_data_len());
}
