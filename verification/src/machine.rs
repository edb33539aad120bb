//! Machine-identifier text forms.
//!
//! A machine identifier is either a hyphenated UUID or a bare 32-digit hex
//! string; these helpers validate the two shapes and rewrite the bare form
//! into the hyphenated one. Reading or writing the identifier on a machine is
//! the caller's concern.

use vstd::prelude::*;

verus! {

/// What the caller learns about this machine's identifier.
#[derive(Debug, Clone)]
pub struct SystemMachineInfo {
    pub machine_guid: Option<String>,
    pub backup_exists: bool,
    pub backup_time: Option<String>,
    pub os_type: String,
    pub can_modify: bool,
    pub requires_admin: bool,
}

/// A saved copy of the identifier, for restoring it later.
#[derive(Debug, Clone)]
pub struct MachineGuidBackup {
    pub machine_guid: String,
    pub backup_time: String,
    pub computer_name: Option<String>,
    pub os_type: Option<String>,
}

/// A lowercase hexadecimal digit.
pub open spec fn is_hex_lower(c: char) -> bool {
    ('0' <= c <= '9') || ('a' <= c <= 'f')
}

/// The string is a hyphenated UUID: 8-4-4-4-12 lowercase hex digits.
pub open spec fn is_uuid_shape(s: Seq<char>) -> bool {
    &&& s.len() == 36
    &&& forall|i: int|
        0 <= i < 36 ==> if i == 8 || i == 13 || i == 18 || i == 23 {
            s[i] == '-'
        } else {
            is_hex_lower(#[trigger] s[i])
        }
}

/// The string is a bare machine identifier: 32 lowercase hex digits.
pub open spec fn is_bare_hex_shape(s: Seq<char>) -> bool {
    s.len() == 32 && forall|i: int| 0 <= i < 32 ==> is_hex_lower(#[trigger] s[i])
}

/// Whether a string has either accepted machine-identifier shape.
pub fn is_valid_machine_id(machine_id: &str) -> (r: bool)
    ensures
        r == (is_uuid_shape(machine_id@) || is_bare_hex_shape(machine_id@)),
{
    let len = machine_id.unicode_len();
    if len == 36 {
        for i in 0..36usize
            invariant
                len == machine_id@.len(),
                len == 36,
                forall|j: int|
                    0 <= j < i ==> if j == 8 || j == 13 || j == 18 || j == 23 {
                        machine_id@[j] == '-'
                    } else {
                        is_hex_lower(#[trigger] machine_id@[j])
                    },
        {
            let c = machine_id.get_char(i);
            if i == 8 || i == 13 || i == 18 || i == 23 {
                if c != '-' {
                    return false;
                }
            } else {
                if !(('0' <= c && c <= '9') || ('a' <= c && c <= 'f')) {
                    return false;
                }
            }
        }
        true
    } else if len == 32 {
        for i in 0..32usize
            invariant
                len == machine_id@.len(),
                len == 32,
                forall|j: int| 0 <= j < i ==> is_hex_lower(#[trigger] machine_id@[j]),
        {
            let c = machine_id.get_char(i);
            if !(('0' <= c && c <= '9') || ('a' <= c && c <= 'f')) {
                return false;
            }
        }
        true
    } else {
        false
    }
}

/// A bare identifier in the hyphenated form: the four hyphens inserted after
/// digit positions eight, twelve, sixteen and twenty.
pub open spec fn hyphenated_spec(s: Seq<char>) -> Seq<char> {
    s.subrange(0, 8) + seq!['-'] + s.subrange(8, 12) + seq!['-'] + s.subrange(12, 16) + seq!['-']
        + s.subrange(16, 20) + seq!['-'] + s.subrange(20, 32)
}

/// Rewrite a bare 32-character identifier into the hyphenated UUID form; any
/// other length is handed back unchanged.
pub fn format_as_uuid(hex: &str) -> (r: String)
    ensures
        hex@.len() == 32 ==> r@ == hyphenated_spec(hex@),
        hex@.len() != 32 ==> r@ == hex@,
{
    let len = hex.unicode_len();
    if len != 32 {
        return hex.to_owned();
    }
    let mut out = String::new();
    out.append(hex.substring_char(0, 8));
    out.append("-");
    out.append(hex.substring_char(8, 12));
    out.append("-");
    out.append(hex.substring_char(12, 16));
    out.append("-");
    out.append(hex.substring_char(16, 20));
    out.append("-");
    out.append(hex.substring_char(20, 32));
    proof {
        reveal_strlit("-");
        assert("-"@ =~= seq!['-']);
        assert(out@ =~= hyphenated_spec(hex@));
    }
    out
}

} // verus!
