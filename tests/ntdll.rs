use record_usage::ntdll::{
    read_u16_le, read_u32_le, read_u64_le, NT_SUCCESS, PROCESS_BASIC_INFORMATION,
    PROCESS_ENVIRONMENT_BLOCK, PROCESS_ENVIRONMENT_BLOCK_32, RTL_USER_PROCESS_PARAMETERS,
    RTL_USER_PROCESS_PARAMETERS_32, UNICODE_STRING_32,
};

#[test]
fn nt_success_is_non_negative_status() {
    assert!(NT_SUCCESS(0));
    assert!(NT_SUCCESS(0x103));
    assert!(!NT_SUCCESS(-1));
    assert!(!NT_SUCCESS(i32::MIN));
}

#[test]
fn little_endian_reads() {
    let b = [0x01u8, 0x02, 0x03, 0x04, 0x05, 0x06, 0x07, 0x08, 0xff];
    assert_eq!(read_u16_le(&b, 0), 0x0201);
    assert_eq!(read_u32_le(&b, 1), 0x0504_0302);
    assert_eq!(read_u64_le(&b, 0), 0x0807_0605_0403_0201);
    assert_eq!(read_u64_le(&[0xff; 8], 0), u64::MAX);
}

#[test]
fn basic_information_layout() {
    let mut b = vec![0u8; 48];
    b[8] = 0x10;
    b[15] = 0x7f;
    b[32] = 42;
    let info = PROCESS_BASIC_INFORMATION::from_bytes(&b);
    assert_eq!(info.PebBaseAddress, 0x7f00_0000_0000_0010);
    assert_eq!(info.UniqueProcessId, 42);
}

#[test]
fn environment_block_layouts() {
    let mut b = vec![0u8; 40];
    b[2] = 1;
    b[24] = 0x11;
    b[32] = 0x22;
    let peb = PROCESS_ENVIRONMENT_BLOCK::from_bytes(&b);
    assert_eq!((peb.BeingDebugged, peb.Ldr, peb.ProcessParameters), (1, 0x11, 0x22));
    let mut b = vec![0u8; 20];
    b[12] = 0x33;
    b[16] = 0x44;
    b[19] = 0x01;
    let peb = PROCESS_ENVIRONMENT_BLOCK_32::from_bytes(&b);
    assert_eq!((peb.BeingDebugged, peb.Ldr, peb.ProcessParameters), (0, 0x33, 0x0100_0044));
}

#[test]
fn process_parameters_layouts() {
    let mut b = vec![0u8; 128];
    b[96] = 6;
    b[112] = 10;
    b[114] = 12;
    b[120] = 0x55;
    let p = RTL_USER_PROCESS_PARAMETERS::from_bytes(&b);
    assert_eq!(p.ImagePathName.Length, 6);
    assert_eq!(p.CommandLine.Length, 10);
    assert_eq!(p.CommandLine.MaximumLength, 12);
    assert_eq!(p.CommandLine.Buffer, 0x55);
    let mut b = vec![0u8; 72];
    b[56] = 4;
    b[64] = 8;
    b[66] = 10;
    b[68] = 0x66;
    let p = RTL_USER_PROCESS_PARAMETERS_32::from_bytes(&b);
    assert_eq!(p.ImagePathName.Length, 4);
    assert_eq!(
        p.CommandLine,
        UNICODE_STRING_32 { Length: 8, MaximumLength: 10, Buffer: 0x66 }
    );
}
