use cleardevil::commands::{
    get_classic_mode_command, get_init_command, get_manual_a_command, get_manual_b_command,
    get_stop_command,
};

#[test]
fn classic_mode_commands_follow_the_mode_table() {
    let table: [(u8, [u8; 5]); 10] = [
        (1, [0xc3, 0x7f, 0x25, 0x63, 0x61]),
        (2, [0xc3, 0x7f, 0x25, 0x60, 0x6e]),
        (3, [0xc3, 0x7f, 0x25, 0x61, 0x6f]),
        (4, [0xc3, 0x7f, 0x25, 0x66, 0x6c]),
        (5, [0xc3, 0x7f, 0x25, 0x67, 0x6d]),
        (6, [0xc3, 0x7f, 0x25, 0x64, 0x6a]),
        (7, [0xc3, 0x7f, 0x25, 0x65, 0x6b]),
        (8, [0xc3, 0x7f, 0x25, 0x6a, 0x68]),
        (9, [0xc3, 0x7f, 0x25, 0x6b, 0x69]),
        (10, [0xc3, 0x7c, 0x25, 0x76, 0x5d]),
    ];
    for (mode, bytes) in table.iter() {
        assert_eq!(get_classic_mode_command(*mode), Some(bytes.to_vec()));
    }
}

#[test]
fn classic_mode_outside_one_to_ten_has_no_command() {
    assert_eq!(get_classic_mode_command(0), None);
    assert_eq!(get_classic_mode_command(11), None);
    assert_eq!(get_classic_mode_command(255), None);
}

#[test]
fn manual_rotation_intensity_ten() {
    assert_eq!(get_manual_a_command(10), Some(vec![0xc3, 0x7c, 0x24, 0x68, 0x54]));
}

#[test]
fn manual_suction_intensity_fifteen() {
    assert_eq!(get_manual_b_command(15), Some(vec![0xc3, 0x7c, 0x27, 0x6d, 0x5e]));
}

#[test]
fn manual_intensity_bounds() {
    assert_eq!(get_manual_a_command(0), Some(vec![0xc3, 0x7c, 0x24, 0x62, 0x6e]));
    assert_eq!(get_manual_a_command(20), Some(vec![0xc3, 0x7c, 0x24, 0x76, 0x5a]));
    assert_eq!(get_manual_b_command(0), Some(vec![0xc3, 0x7c, 0x27, 0x62, 0x6f]));
    assert_eq!(get_manual_b_command(20), Some(vec![0xc3, 0x7c, 0x27, 0x76, 0x5b]));
    assert_eq!(get_manual_a_command(21), None);
    assert_eq!(get_manual_b_command(21), None);
    assert_eq!(get_manual_a_command(255), None);
    assert_eq!(get_manual_b_command(255), None);
}

#[test]
fn stop_and_init_commands() {
    assert_eq!(get_stop_command(), vec![0xc3, 0x7e, 0x25, 0x62, 0x63]);
    assert_eq!(get_init_command(), vec![0xc3, 0x6f, 0x36, 0x62, 0x4f]);
}

fn all_commands() -> Vec<Vec<u8>> {
    let mut all = Vec::new();
    for mode in 0..=255u8 {
        if let Some(c) = get_classic_mode_command(mode) {
            all.push(c);
        }
        if let Some(c) = get_manual_a_command(mode) {
            all.push(c);
        }
        if let Some(c) = get_manual_b_command(mode) {
            all.push(c);
        }
    }
    all.push(get_stop_command());
    all.push(get_init_command());
    all
}

#[test]
fn every_command_is_framed() {
    let all = all_commands();
    assert_eq!(all.len(), 10 + 21 + 21 + 2);
    for c in all.iter() {
        assert_eq!(c.len(), 5);
        assert_eq!(c[0], 0xc3);
    }
}

#[test]
fn no_two_settings_share_a_command() {
    let all = all_commands();
    for i in 0..all.len() {
        for j in (i + 1)..all.len() {
            assert_ne!(all[i], all[j]);
        }
    }
}
