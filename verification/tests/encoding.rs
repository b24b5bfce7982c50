use nvme_driver::cmd::{Command, IdentifyType};
use nvme_driver::device::{aqa_word, cc_disabled, cc_enabled, cc_io_entry_sizes, Doorbell,
    DoorbellHelper};
use nvme_driver::identify::{
    extract_string, parse_cap, parse_controller_data, parse_namespace_data, parse_namespace_list,
    read_le_u32, read_le_u64,
};

#[test]
fn read_write_command_encoding() {
    let lba: u64 = 0x1_2345_6789;
    let cmd = Command::read_write(7, 1, lba, 15, [0x80000, 0], false);
    assert_eq!(cmd.opcode, 2);
    assert_eq!(cmd.cmd_id, 7);
    assert_eq!(cmd.ns_id, 1);
    assert_eq!(cmd.data_ptr[0], 0x80000);
    assert_eq!(cmd.data_ptr[1], 0);
    assert_eq!(cmd.cmd_10, 0x2345_6789);
    assert_eq!(cmd.cmd_11, 0x1);
    assert_eq!(cmd.cmd_12, 15);
    assert_eq!(cmd.flags, 0);
    assert_eq!(cmd.md_ptr, 0);

    let wr = Command::read_write(8, 2, 0, 0, [0xA000, 0xB000], true);
    assert_eq!(wr.opcode, 1);
    assert_eq!(wr.cmd_12, 0);
}

#[test]
fn create_queue_command_encoding() {
    let sq = Command::create_submission_queue(3, 5, 0xC000, 63, 5);
    assert_eq!(sq.opcode, 1);
    assert_eq!(sq.data_ptr[0], 0xC000);
    assert_eq!(sq.cmd_10, (63 << 16) | 5);
    assert_eq!(sq.cmd_11, (5 << 16) | 1);

    let cq = Command::create_completion_queue(4, 5, 0xD000, 63);
    assert_eq!(cq.opcode, 5);
    assert_eq!(cq.data_ptr[0], 0xD000);
    assert_eq!(cq.cmd_10, (63 << 16) | 5);
    assert_eq!(cq.cmd_11, 1);
}

#[test]
fn delete_queue_command_encoding() {
    let dsq = Command::delete_submission_queue(9, 6);
    assert_eq!(dsq.opcode, 0);
    assert_eq!(dsq.cmd_10, 6);
    let dcq = Command::delete_completion_queue(9, 6);
    assert_eq!(dcq.opcode, 4);
    assert_eq!(dcq.cmd_10, 6);
}

#[test]
fn identify_command_encoding() {
    let c = Command::identify(1, 0x1000, IdentifyType::Controller);
    assert_eq!(c.opcode, 6);
    assert_eq!(c.ns_id, 0);
    assert_eq!(c.cmd_10, 1);
    assert_eq!(c.data_ptr[0], 0x1000);

    let n = Command::identify(2, 0x1000, IdentifyType::Namespace(42));
    assert_eq!(n.ns_id, 42);
    assert_eq!(n.cmd_10, 0);

    let l = Command::identify(3, 0x1000, IdentifyType::NamespaceList(100));
    assert_eq!(l.ns_id, 100);
    assert_eq!(l.cmd_10, 2);
}

#[test]
fn cap_parsing_handshake_values() {
    // The init-handshake capability word: MQES=63, DSTRD=0, MPSMIN=0.
    let caps = parse_cap(0x0000_0200_000F_003F);
    assert_eq!(caps.max_queue_entries, 64);
    assert_eq!(caps.doorbell_stride, 0);
    assert_eq!(caps.page_shift, 12);
    assert_eq!(caps.min_pagesize, 4096);
}

#[test]
fn cap_parsing_stride_and_pagesize() {
    // DSTRD=3 (bits 35:32), MPSMIN=4 (bits 51:48), MQES=0xFFFF.
    let cap: u64 = (3u64 << 32) | (4u64 << 48) | 0xFFFF;
    let caps = parse_cap(cap);
    assert_eq!(caps.doorbell_stride, 3);
    assert_eq!(caps.min_pagesize, 1 << 16);
    assert_eq!(caps.max_queue_entries, 0x10000);
}

fn identify_controller_bytes() -> Vec<u8> {
    let mut bytes = vec![0u8; 4096];
    let serial = b"SERIAL1234          ";
    bytes[4..24].copy_from_slice(serial);
    let mut model = [0x20u8; 40];
    model[..6].copy_from_slice(b"MODELX");
    bytes[24..64].copy_from_slice(&model);
    let mut fw = [0x20u8; 8];
    fw[..7].copy_from_slice(b"FW01.00");
    bytes[64..72].copy_from_slice(&fw);
    bytes[77] = 5;
    bytes
}

#[test]
fn controller_identify_parsing() {
    let bytes = identify_controller_bytes();
    let data = parse_controller_data(&bytes, 12, 64);
    assert_eq!(data.serial_number, "SERIAL1234");
    assert_eq!(data.model_number, "MODELX");
    assert_eq!(data.firmware_revision, "FW01.00");
    assert_eq!(data.max_transfer_size, 32 * 4096);
    assert_eq!(data.min_pagesize, 4096);
    assert_eq!(data.max_queue_entries, 64);
}

#[test]
fn controller_identify_mdts_zero_means_one_page() {
    let mut bytes = identify_controller_bytes();
    bytes[77] = 0;
    let data = parse_controller_data(&bytes, 12, 64);
    assert_eq!(data.max_transfer_size, 4096);
}

#[test]
fn string_extraction_trims_whitespace() {
    let bytes = b"  abc def\t ".to_vec();
    assert_eq!(extract_string(&bytes, 0, bytes.len()), "abc def");
    let all_space = b"      ".to_vec();
    assert_eq!(extract_string(&all_space, 0, all_space.len()), "");
    let empty: Vec<u8> = Vec::new();
    assert_eq!(extract_string(&empty, 0, 0), "");
}

#[test]
fn little_endian_readers() {
    let bytes = vec![0x78, 0x56, 0x34, 0x12, 0xEF, 0xCD, 0xAB, 0x89];
    assert_eq!(read_le_u32(&bytes, 0), 0x12345678);
    assert_eq!(read_le_u64(&bytes, 0), 0x89ABCDEF_12345678);
}

#[test]
fn namespace_list_parsing_drops_zeroes() {
    let mut bytes = vec![0u8; 4096];
    bytes[0..4].copy_from_slice(&1u32.to_le_bytes());
    // Slot 1 stays zero.
    bytes[8..12].copy_from_slice(&7u32.to_le_bytes());
    bytes[4092..4096].copy_from_slice(&9u32.to_le_bytes());
    let ids = parse_namespace_list(&bytes);
    assert_eq!(ids, vec![1, 7, 9]);
}

#[test]
fn namespace_data_parsing() {
    let mut bytes = vec![0u8; 4096];
    bytes[8..16].copy_from_slice(&0x1000u64.to_le_bytes());
    bytes[26] = 0x02; // selects LBA format 2
    let lbaf2: u32 = 12 << 16; // LBADS = 12
    bytes[128 + 8..128 + 12].copy_from_slice(&lbaf2.to_le_bytes());
    let ns = parse_namespace_data(3, &bytes);
    assert_eq!(ns.id, 3);
    assert_eq!(ns.block_count, 0x1000);
    assert_eq!(ns.block_size, 4096);
}

#[test]
fn controller_register_words() {
    assert_eq!(aqa_word(), 0x003F_003F);
    assert_eq!(cc_disabled(0x0046_0001), 0x0046_0000);
    assert_eq!(cc_enabled(0x0046_0000), 0x0046_0001);
    // Reserved bits kept, IOCQES=4 and IOSQES=6 set, the rest cleared.
    assert_eq!(cc_io_entry_sizes(0xFFFF_FFFF), 0xFF46_000F);
    assert_eq!(cc_io_entry_sizes(0), 0x0046_0000);
}

#[test]
fn doorbell_addressing() {
    let helper = DoorbellHelper::new(0x1000_0000, 0);
    assert_eq!(helper.address(Doorbell::SubTail(0)), 0x1000_1000);
    assert_eq!(helper.address(Doorbell::CompHead(0)), 0x1000_1004);
    assert_eq!(helper.address(Doorbell::SubTail(3)), 0x1000_1000 + 6 * 4);
    assert_eq!(helper.address(Doorbell::CompHead(3)), 0x1000_1000 + 7 * 4);

    let wide = DoorbellHelper::new(0x1000_0000, 2);
    assert_eq!(wide.address(Doorbell::SubTail(1)), 0x1000_1000 + 2 * 16);
    assert_eq!(wide.address(Doorbell::CompHead(1)), 0x1000_1000 + 3 * 16);
}
