use pe_header::error::PEError;
use pe_header::machine::Machine;

fn machine_table() -> Vec<(u16, Machine)> {
    vec![
        (0x0, Machine::Unknown),
        (0x1d3, Machine::Am33),
        (0x8664, Machine::Amd64),
        (0x1c0, Machine::Arm),
        (0xaa64, Machine::Arm64),
        (0x1c4, Machine::Armnt),
        (0xebc, Machine::Ebc),
        (0x14c, Machine::I386),
        (0x200, Machine::Ia64),
        (0x9041, Machine::M32R),
        (0x266, Machine::Mips16),
        (0x366, Machine::MipsFpu),
        (0x466, Machine::MipsFpu16),
        (0x1f0, Machine::PowerPc),
        (0x1f1, Machine::PowerPcFp),
        (0x166, Machine::R4000),
        (0x5032, Machine::RiscV32),
        (0x5064, Machine::RiscV64),
        (0x5128, Machine::RiscV128),
        (0x1a2, Machine::Sh3),
        (0x1a3, Machine::Sh3Dsp),
        (0x1a6, Machine::Sh4),
        (0x1a8, Machine::Sh5),
        (0x1c2, Machine::Thumb),
        (0x169, Machine::WceMipsV2),
    ]
}

#[test]
fn every_machine_has_its_code() {
    let table = machine_table();
    assert_eq!(table.len(), 25);
    for (code, machine) in table {
        assert_eq!(machine.code(), code);
    }
}

#[test]
fn every_code_of_the_table_decodes_to_its_machine() {
    for (code, machine) in machine_table() {
        match Machine::try_from(code) {
            Ok(decoded) => assert_eq!(decoded, machine),
            Err(e) => panic!("code {:#x} was refused: {:?}", code, e),
        }
    }
}

#[test]
fn decoding_a_code_and_encoding_it_again_is_the_identity() {
    for (_, machine) in machine_table() {
        assert!(matches!(Machine::try_from(machine.code()), Ok(m) if m == machine));
    }
}

#[test]
fn a_code_outside_the_table_is_refused_with_the_code() {
    assert!(matches!(Machine::try_from(0xffff), Err(PEError::InvalidMachineType(0xffff))));
    assert!(matches!(Machine::try_from(0x1), Err(PEError::InvalidMachineType(0x1))));
    assert!(matches!(Machine::try_from(0x14d), Err(PEError::InvalidMachineType(0x14d))));
    assert!(matches!(Machine::try_from(0x8663), Err(PEError::InvalidMachineType(0x8663))));
}

#[test]
fn exactly_the_codes_of_the_table_are_accepted() {
    let table = machine_table();
    let mut accepted: u32 = 0;
    for code in 0..=u16::MAX {
        let listed = table.iter().any(|(c, _)| *c == code);
        match Machine::try_from(code) {
            Ok(machine) => {
                assert!(listed);
                assert_eq!(machine.code(), code);
                accepted += 1;
            }
            Err(PEError::InvalidMachineType(refused)) => {
                assert!(!listed);
                assert_eq!(refused, code);
            }
            Err(e) => panic!("code {:#x} failed with {:?}", code, e),
        }
    }
    assert_eq!(accepted, 25);
}

#[test]
fn well_known_codes() {
    assert!(matches!(Machine::try_from(0x0), Ok(Machine::Unknown)));
    assert!(matches!(Machine::try_from(0x14c), Ok(Machine::I386)));
    assert!(matches!(Machine::try_from(0x8664), Ok(Machine::Amd64)));
    assert!(matches!(Machine::try_from(0xaa64), Ok(Machine::Arm64)));
}
