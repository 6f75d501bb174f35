//! The five-byte commands understood by the LD-1 device.

use vstd::prelude::*;

verus! {

/// The largest intensity that a manual command accepts.
pub const MAX_INTENSITY: u8 = 20;

/// The view of a command that may be absent.
pub open spec fn command_view(cmd: Option<Vec<u8>>) -> Option<Seq<u8>> {
    match cmd {
        Some(c) => Some(c@),
        None => None,
    }
}

/// The command of each of the ten preset (classic) modes, `None` for any other mode number.
pub open spec fn classic_command_spec(key: u8) -> Option<Seq<u8>> {
    match key {
        1 => Some(seq![0xc3u8, 0x7fu8, 0x25u8, 0x63u8, 0x61u8]),
        2 => Some(seq![0xc3u8, 0x7fu8, 0x25u8, 0x60u8, 0x6eu8]),
        3 => Some(seq![0xc3u8, 0x7fu8, 0x25u8, 0x61u8, 0x6fu8]),
        4 => Some(seq![0xc3u8, 0x7fu8, 0x25u8, 0x66u8, 0x6cu8]),
        5 => Some(seq![0xc3u8, 0x7fu8, 0x25u8, 0x67u8, 0x6du8]),
        6 => Some(seq![0xc3u8, 0x7fu8, 0x25u8, 0x64u8, 0x6au8]),
        7 => Some(seq![0xc3u8, 0x7fu8, 0x25u8, 0x65u8, 0x6bu8]),
        8 => Some(seq![0xc3u8, 0x7fu8, 0x25u8, 0x6au8, 0x68u8]),
        9 => Some(seq![0xc3u8, 0x7fu8, 0x25u8, 0x6bu8, 0x69u8]),
        10 => Some(seq![0xc3u8, 0x7cu8, 0x25u8, 0x76u8, 0x5du8]),
        _ => None,
    }
}

/// The command that sets the rotation (control type A) to an intensity from 0 to 20.
pub open spec fn manual_a_command_spec(key: u8) -> Option<Seq<u8>> {
    match key {
        0 => Some(seq![0xc3u8, 0x7cu8, 0x24u8, 0x62u8, 0x6eu8]),
        1 => Some(seq![0xc3u8, 0x7cu8, 0x24u8, 0x63u8, 0x6fu8]),
        2 => Some(seq![0xc3u8, 0x7cu8, 0x24u8, 0x60u8, 0x6cu8]),
        3 => Some(seq![0xc3u8, 0x7cu8, 0x24u8, 0x61u8, 0x6du8]),
        4 => Some(seq![0xc3u8, 0x7cu8, 0x24u8, 0x66u8, 0x6au8]),
        5 => Some(seq![0xc3u8, 0x7cu8, 0x24u8, 0x67u8, 0x6bu8]),
        6 => Some(seq![0xc3u8, 0x7cu8, 0x24u8, 0x64u8, 0x68u8]),
        7 => Some(seq![0xc3u8, 0x7cu8, 0x24u8, 0x65u8, 0x69u8]),
        8 => Some(seq![0xc3u8, 0x7cu8, 0x24u8, 0x6au8, 0x56u8]),
        9 => Some(seq![0xc3u8, 0x7cu8, 0x24u8, 0x6bu8, 0x57u8]),
        10 => Some(seq![0xc3u8, 0x7cu8, 0x24u8, 0x68u8, 0x54u8]),
        11 => Some(seq![0xc3u8, 0x7cu8, 0x24u8, 0x69u8, 0x55u8]),
        12 => Some(seq![0xc3u8, 0x7cu8, 0x24u8, 0x6eu8, 0x52u8]),
        13 => Some(seq![0xc3u8, 0x7cu8, 0x24u8, 0x6fu8, 0x53u8]),
        14 => Some(seq![0xc3u8, 0x7cu8, 0x24u8, 0x6cu8, 0x50u8]),
        15 => Some(seq![0xc3u8, 0x7cu8, 0x24u8, 0x6du8, 0x51u8]),
        16 => Some(seq![0xc3u8, 0x7cu8, 0x24u8, 0x72u8, 0x5eu8]),
        17 => Some(seq![0xc3u8, 0x7cu8, 0x24u8, 0x73u8, 0x5fu8]),
        18 => Some(seq![0xc3u8, 0x7cu8, 0x24u8, 0x70u8, 0x5cu8]),
        19 => Some(seq![0xc3u8, 0x7cu8, 0x24u8, 0x71u8, 0x5du8]),
        20 => Some(seq![0xc3u8, 0x7cu8, 0x24u8, 0x76u8, 0x5au8]),
        _ => None,
    }
}

/// The command that sets the suction (control type B) to an intensity from 0 to 20.
pub open spec fn manual_b_command_spec(key: u8) -> Option<Seq<u8>> {
    match key {
        0 => Some(seq![0xc3u8, 0x7cu8, 0x27u8, 0x62u8, 0x6fu8]),
        1 => Some(seq![0xc3u8, 0x7cu8, 0x27u8, 0x63u8, 0x6cu8]),
        2 => Some(seq![0xc3u8, 0x7cu8, 0x27u8, 0x60u8, 0x6du8]),
        3 => Some(seq![0xc3u8, 0x7cu8, 0x27u8, 0x61u8, 0x6au8]),
        4 => Some(seq![0xc3u8, 0x7cu8, 0x27u8, 0x66u8, 0x6bu8]),
        5 => Some(seq![0xc3u8, 0x7cu8, 0x27u8, 0x67u8, 0x68u8]),
        6 => Some(seq![0xc3u8, 0x7cu8, 0x27u8, 0x64u8, 0x69u8]),
        7 => Some(seq![0xc3u8, 0x7cu8, 0x27u8, 0x65u8, 0x56u8]),
        8 => Some(seq![0xc3u8, 0x7cu8, 0x27u8, 0x6au8, 0x57u8]),
        9 => Some(seq![0xc3u8, 0x7cu8, 0x27u8, 0x6bu8, 0x54u8]),
        10 => Some(seq![0xc3u8, 0x7cu8, 0x27u8, 0x68u8, 0x55u8]),
        11 => Some(seq![0xc3u8, 0x7cu8, 0x27u8, 0x69u8, 0x52u8]),
        12 => Some(seq![0xc3u8, 0x7cu8, 0x27u8, 0x6eu8, 0x53u8]),
        13 => Some(seq![0xc3u8, 0x7cu8, 0x27u8, 0x6fu8, 0x50u8]),
        14 => Some(seq![0xc3u8, 0x7cu8, 0x27u8, 0x6cu8, 0x51u8]),
        15 => Some(seq![0xc3u8, 0x7cu8, 0x27u8, 0x6du8, 0x5eu8]),
        16 => Some(seq![0xc3u8, 0x7cu8, 0x27u8, 0x72u8, 0x5fu8]),
        17 => Some(seq![0xc3u8, 0x7cu8, 0x27u8, 0x73u8, 0x5cu8]),
        18 => Some(seq![0xc3u8, 0x7cu8, 0x27u8, 0x70u8, 0x5du8]),
        19 => Some(seq![0xc3u8, 0x7cu8, 0x27u8, 0x71u8, 0x5au8]),
        20 => Some(seq![0xc3u8, 0x7cu8, 0x27u8, 0x76u8, 0x5bu8]),
        _ => None,
    }
}

/// The command that stops the device.
pub open spec fn stop_command_spec() -> Seq<u8> {
    seq![0xc3u8, 0x7eu8, 0x25u8, 0x62u8, 0x63u8]
}

/// The command sent once after connecting to the device.
pub open spec fn init_command_spec() -> Seq<u8> {
    seq![0xc3u8, 0x6fu8, 0x36u8, 0x62u8, 0x4fu8]
}

/// Every command the device understands is five bytes long and begins with the
/// byte 0xc3.
pub proof fn lemma_commands_are_framed(key: u8)
    ensures
        stop_command_spec().len() == 5 && stop_command_spec()[0] == 0xc3,
        init_command_spec().len() == 5 && init_command_spec()[0] == 0xc3,
        classic_command_spec(key) matches Some(c) ==> c.len() == 5 && c[0] == 0xc3,
        manual_a_command_spec(key) matches Some(c) ==> c.len() == 5 && c[0] == 0xc3,
        manual_b_command_spec(key) matches Some(c) ==> c.len() == 5 && c[0] == 0xc3,
{
}

/// No two settings share a command: each preset mode, each rotation
/// intensity and each suction intensity has a command of its own, and none of
/// them is the stop or the initialisation command.
pub proof fn lemma_commands_are_distinct(k1: u8, k2: u8)
    ensures
        classic_command_spec(k1) is Some && classic_command_spec(k1) == classic_command_spec(k2)
            ==> k1 == k2,
        manual_a_command_spec(k1) is Some && manual_a_command_spec(k1) == manual_a_command_spec(k2)
            ==> k1 == k2,
        manual_b_command_spec(k1) is Some && manual_b_command_spec(k1) == manual_b_command_spec(k2)
            ==> k1 == k2,
        classic_command_spec(k1) is Some ==> classic_command_spec(k1) != manual_a_command_spec(k2)
            && classic_command_spec(k1) != manual_b_command_spec(k2),
        manual_a_command_spec(k1) is Some ==> manual_a_command_spec(k1) != manual_b_command_spec(k2),
        classic_command_spec(k1) != Some(stop_command_spec()),
        classic_command_spec(k1) != Some(init_command_spec()),
        manual_a_command_spec(k1) != Some(stop_command_spec()),
        manual_a_command_spec(k1) != Some(init_command_spec()),
        manual_b_command_spec(k1) != Some(stop_command_spec()),
        manual_b_command_spec(k1) != Some(init_command_spec()),
        stop_command_spec() != init_command_spec(),
{
}

/// The check byte that closes a manual command: the level `j` mixed with a key
/// that depends on which block of eight levels `j` falls in.
pub open spec fn manual_check_byte(j: u8) -> u8 {
    j ^ (if j < 8 {
        0x6eu8
    } else if j < 16 {
        0x5eu8
    } else {
        0x4eu8
    })
}

proof fn lemma_level_bytes(i: u8)
    by (bit_vector)
    ensures
        (i == 0 ==> (i ^ 0x62u8) == 0x62u8 && manual_check_byte(i) == 0x6eu8) &&
        (i == 1 ==> (i ^ 0x62u8) == 0x63u8 && manual_check_byte(i) == 0x6fu8) &&
        (i == 2 ==> (i ^ 0x62u8) == 0x60u8 && manual_check_byte(i) == 0x6cu8) &&
        (i == 3 ==> (i ^ 0x62u8) == 0x61u8 && manual_check_byte(i) == 0x6du8) &&
        (i == 4 ==> (i ^ 0x62u8) == 0x66u8 && manual_check_byte(i) == 0x6au8) &&
        (i == 5 ==> (i ^ 0x62u8) == 0x67u8 && manual_check_byte(i) == 0x6bu8) &&
        (i == 6 ==> (i ^ 0x62u8) == 0x64u8 && manual_check_byte(i) == 0x68u8) &&
        (i == 7 ==> (i ^ 0x62u8) == 0x65u8 && manual_check_byte(i) == 0x69u8) &&
        (i == 8 ==> (i ^ 0x62u8) == 0x6au8 && manual_check_byte(i) == 0x56u8) &&
        (i == 9 ==> (i ^ 0x62u8) == 0x6bu8 && manual_check_byte(i) == 0x57u8) &&
        (i == 10 ==> (i ^ 0x62u8) == 0x68u8 && manual_check_byte(i) == 0x54u8) &&
        (i == 11 ==> (i ^ 0x62u8) == 0x69u8 && manual_check_byte(i) == 0x55u8) &&
        (i == 12 ==> (i ^ 0x62u8) == 0x6eu8 && manual_check_byte(i) == 0x52u8) &&
        (i == 13 ==> (i ^ 0x62u8) == 0x6fu8 && manual_check_byte(i) == 0x53u8) &&
        (i == 14 ==> (i ^ 0x62u8) == 0x6cu8 && manual_check_byte(i) == 0x50u8) &&
        (i == 15 ==> (i ^ 0x62u8) == 0x6du8 && manual_check_byte(i) == 0x51u8) &&
        (i == 16 ==> (i ^ 0x62u8) == 0x72u8 && manual_check_byte(i) == 0x5eu8) &&
        (i == 17 ==> (i ^ 0x62u8) == 0x73u8 && manual_check_byte(i) == 0x5fu8) &&
        (i == 18 ==> (i ^ 0x62u8) == 0x70u8 && manual_check_byte(i) == 0x5cu8) &&
        (i == 19 ==> (i ^ 0x62u8) == 0x71u8 && manual_check_byte(i) == 0x5du8) &&
        (i == 20 ==> (i ^ 0x62u8) == 0x76u8 && manual_check_byte(i) == 0x5au8) &&
        (i == 21 ==> (i ^ 0x62u8) == 0x77u8 && manual_check_byte(i) == 0x5bu8),
{
}

/// The layout of the manual commands. The rotation command for intensity `i`
/// is `c3 7c 24`, then `i ^ 0x62`, then the check byte of `i`; the suction
/// command for intensity `i` is `c3 7c 27`, then `i ^ 0x62`, then the check
/// byte of `i + 1`. So each command carries the intensity it was asked for.
pub proof fn lemma_manual_command_layout(i: u8)
    requires
        i <= MAX_INTENSITY,
    ensures
        manual_a_command_spec(i) == Some(
            seq![0xc3u8, 0x7cu8, 0x24u8, i ^ 0x62u8, manual_check_byte(i)],
        ),
        manual_b_command_spec(i) == Some(
            seq![0xc3u8, 0x7cu8, 0x27u8, i ^ 0x62u8, manual_check_byte((i + 1) as u8)],
        ),
{
    lemma_level_bytes(i);
    lemma_level_bytes((i + 1) as u8);
}

/// The layout of the preset-mode commands. Modes 1 to 9 are `c3 7f 25`, then
/// `m ^ 0x62`, then a check byte (`0x61` for mode 1, `(m - 2) ^ 0x6e` for the
/// others); mode 10 is `c3 7c 25 76 5d`.
pub proof fn lemma_classic_command_layout(m: u8)
    requires
        1 <= m <= 10,
    ensures
        2 <= m <= 9 ==> classic_command_spec(m) == Some(
            seq![0xc3u8, 0x7fu8, 0x25u8, m ^ 0x62u8, ((m - 2) as u8) ^ 0x6eu8],
        ),
        m == 1 ==> classic_command_spec(m) == Some(
            seq![0xc3u8, 0x7fu8, 0x25u8, m ^ 0x62u8, 0x61u8],
        ),
        m == 10 ==> classic_command_spec(m) == Some(seq![0xc3u8, 0x7cu8, 0x25u8, 0x76u8, 0x5du8]),
{
    lemma_level_bytes(m);
    lemma_level_bytes((m - 2) as u8);
}

/// Looks up the command of a preset mode: `Some` exactly for the modes 1 to 10.
pub fn get_classic_mode_command(mode_type: u8) -> (cmd: Option<Vec<u8>>)
    ensures
        command_view(cmd) == classic_command_spec(mode_type),
        cmd is Some <==> 1 <= mode_type <= 10,
{
    match mode_type {
        1 => Some(vec![0xc3, 0x7f, 0x25, 0x63, 0x61]),
        2 => Some(vec![0xc3, 0x7f, 0x25, 0x60, 0x6e]),
        3 => Some(vec![0xc3, 0x7f, 0x25, 0x61, 0x6f]),
        4 => Some(vec![0xc3, 0x7f, 0x25, 0x66, 0x6c]),
        5 => Some(vec![0xc3, 0x7f, 0x25, 0x67, 0x6d]),
        6 => Some(vec![0xc3, 0x7f, 0x25, 0x64, 0x6a]),
        7 => Some(vec![0xc3, 0x7f, 0x25, 0x65, 0x6b]),
        8 => Some(vec![0xc3, 0x7f, 0x25, 0x6a, 0x68]),
        9 => Some(vec![0xc3, 0x7f, 0x25, 0x6b, 0x69]),
        10 => Some(vec![0xc3, 0x7c, 0x25, 0x76, 0x5d]),
        _ => None,
    }
}

/// Looks up the command that sets the rotation intensity (control type A):
/// `Some` exactly for the intensities 0 to 20.
pub fn get_manual_a_command(intensity: u8) -> (cmd: Option<Vec<u8>>)
    ensures
        command_view(cmd) == manual_a_command_spec(intensity),
        cmd is Some <==> intensity <= MAX_INTENSITY,
{
    if intensity > MAX_INTENSITY {
        return None;
    }
    match intensity {
        0 => Some(vec![0xc3, 0x7c, 0x24, 0x62, 0x6e]),
        1 => Some(vec![0xc3, 0x7c, 0x24, 0x63, 0x6f]),
        2 => Some(vec![0xc3, 0x7c, 0x24, 0x60, 0x6c]),
        3 => Some(vec![0xc3, 0x7c, 0x24, 0x61, 0x6d]),
        4 => Some(vec![0xc3, 0x7c, 0x24, 0x66, 0x6a]),
        5 => Some(vec![0xc3, 0x7c, 0x24, 0x67, 0x6b]),
        6 => Some(vec![0xc3, 0x7c, 0x24, 0x64, 0x68]),
        7 => Some(vec![0xc3, 0x7c, 0x24, 0x65, 0x69]),
        8 => Some(vec![0xc3, 0x7c, 0x24, 0x6a, 0x56]),
        9 => Some(vec![0xc3, 0x7c, 0x24, 0x6b, 0x57]),
        10 => Some(vec![0xc3, 0x7c, 0x24, 0x68, 0x54]),
        11 => Some(vec![0xc3, 0x7c, 0x24, 0x69, 0x55]),
        12 => Some(vec![0xc3, 0x7c, 0x24, 0x6e, 0x52]),
        13 => Some(vec![0xc3, 0x7c, 0x24, 0x6f, 0x53]),
        14 => Some(vec![0xc3, 0x7c, 0x24, 0x6c, 0x50]),
        15 => Some(vec![0xc3, 0x7c, 0x24, 0x6d, 0x51]),
        16 => Some(vec![0xc3, 0x7c, 0x24, 0x72, 0x5e]),
        17 => Some(vec![0xc3, 0x7c, 0x24, 0x73, 0x5f]),
        18 => Some(vec![0xc3, 0x7c, 0x24, 0x70, 0x5c]),
        19 => Some(vec![0xc3, 0x7c, 0x24, 0x71, 0x5d]),
        20 => Some(vec![0xc3, 0x7c, 0x24, 0x76, 0x5a]),
        _ => None,
    }
}

/// Looks up the command that sets the suction intensity (control type B):
/// `Some` exactly for the intensities 0 to 20.
pub fn get_manual_b_command(intensity: u8) -> (cmd: Option<Vec<u8>>)
    ensures
        command_view(cmd) == manual_b_command_spec(intensity),
        cmd is Some <==> intensity <= MAX_INTENSITY,
{
    if intensity > MAX_INTENSITY {
        return None;
    }
    match intensity {
        0 => Some(vec![0xc3, 0x7c, 0x27, 0x62, 0x6f]),
        1 => Some(vec![0xc3, 0x7c, 0x27, 0x63, 0x6c]),
        2 => Some(vec![0xc3, 0x7c, 0x27, 0x60, 0x6d]),
        3 => Some(vec![0xc3, 0x7c, 0x27, 0x61, 0x6a]),
        4 => Some(vec![0xc3, 0x7c, 0x27, 0x66, 0x6b]),
        5 => Some(vec![0xc3, 0x7c, 0x27, 0x67, 0x68]),
        6 => Some(vec![0xc3, 0x7c, 0x27, 0x64, 0x69]),
        7 => Some(vec![0xc3, 0x7c, 0x27, 0x65, 0x56]),
        8 => Some(vec![0xc3, 0x7c, 0x27, 0x6a, 0x57]),
        9 => Some(vec![0xc3, 0x7c, 0x27, 0x6b, 0x54]),
        10 => Some(vec![0xc3, 0x7c, 0x27, 0x68, 0x55]),
        11 => Some(vec![0xc3, 0x7c, 0x27, 0x69, 0x52]),
        12 => Some(vec![0xc3, 0x7c, 0x27, 0x6e, 0x53]),
        13 => Some(vec![0xc3, 0x7c, 0x27, 0x6f, 0x50]),
        14 => Some(vec![0xc3, 0x7c, 0x27, 0x6c, 0x51]),
        15 => Some(vec![0xc3, 0x7c, 0x27, 0x6d, 0x5e]),
        16 => Some(vec![0xc3, 0x7c, 0x27, 0x72, 0x5f]),
        17 => Some(vec![0xc3, 0x7c, 0x27, 0x73, 0x5c]),
        18 => Some(vec![0xc3, 0x7c, 0x27, 0x70, 0x5d]),
        19 => Some(vec![0xc3, 0x7c, 0x27, 0x71, 0x5a]),
        20 => Some(vec![0xc3, 0x7c, 0x27, 0x76, 0x5b]),
        _ => None,
    }
}

/// Returns the command that stops the device.
pub fn get_stop_command() -> (cmd: Vec<u8>)
    ensures
        cmd@ == stop_command_spec(),
{
    vec![0xc3, 0x7e, 0x25, 0x62, 0x63]
}

/// Returns the command that initialises the device after connecting.
pub fn get_init_command() -> (cmd: Vec<u8>)
    ensures
        cmd@ == init_command_spec(),
{
    vec![0xc3, 0x6f, 0x36, 0x62, 0x4f]
}

} // verus!
