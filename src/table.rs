//! The fixed tables of capacities and nominal voltages, looked up without
//! regard to letter case.

use vstd::prelude::*;

verus! {

/// What `str::to_lowercase` returns for a string.
pub uninterp spec fn lower_of(s: Seq<char>) -> Seq<char>;

/// The lowercase form of an ASCII letter; any other character is kept.
pub open spec fn ascii_lower_char(c: char) -> char {
    if 'A' <= c && c <= 'Z' {
        ((c as u32) + 32) as char
    } else {
        c
    }
}

/// The ASCII lowercase form of a sequence of characters.
pub open spec fn ascii_lower(s: Seq<char>) -> Seq<char> {
    s.map_values(|c: char| ascii_lower_char(c))
}

/// Relies on `str::to_lowercase`: the result depends on the characters
/// alone, and an ASCII string has its letters A to Z mapped to a to z.
#[verifier::external_body]
fn lowercase(s: &str) -> (r: String)
    ensures
        r@ == lower_of(s@),
        s.is_ascii() ==> r@ == ascii_lower(s@),
{
    s.to_lowercase()
}

/// Capacity in milliampere-hours of a chemistry and size, both already in
/// lowercase.
pub open spec fn capacity_spec(chemistry: Seq<char>, size: Seq<char>) -> Option<u16> {
    if chemistry == "alkaline"@ && size == "aa"@ {
        Some(2500)
    } else if chemistry == "alkaline"@ && size == "aaa"@ {
        Some(1200)
    } else if chemistry == "nimh"@ && size == "aa"@ {
        Some(2000)
    } else if chemistry == "nimh"@ && size == "aaa"@ {
        Some(800)
    } else if chemistry == "nicd"@ && size == "aa"@ {
        Some(1000)
    } else if chemistry == "nicd"@ && size == "aaa"@ {
        Some(300)
    } else if chemistry == "lithium-ion"@ && size == "aa"@ {
        Some(3500)
    } else if chemistry == "lithium-ion"@ && size == "aaa"@ {
        Some(2000)
    } else {
        None
    }
}

/// Nominal voltage in millivolts of a chemistry, already in lowercase.
pub open spec fn voltage_spec(chemistry: Seq<char>) -> Option<u16> {
    if chemistry == "alkaline"@ {
        Some(1500)
    } else if chemistry == "nimh"@ {
        Some(1200)
    } else if chemistry == "nicd"@ {
        Some(1200)
    } else if chemistry == "lithium-ion"@ {
        Some(3700)
    } else {
        None
    }
}

/// Whether two strings hold the same characters.
pub fn same_text(a: &str, b: &str) -> (r: bool)
    ensures
        r == (a@ == b@),
{
    let n = a.unicode_len();
    if n != b.unicode_len() {
        return false;
    }
    let mut i: usize = 0;
    while i < n
        invariant
            n == a@.len(),
            n == b@.len(),
            i <= n,
            a@.subrange(0, i as int) == b@.subrange(0, i as int),
        decreases n - i,
    {
        if a.get_char(i) != b.get_char(i) {
            return false;
        }
        assert(a@.subrange(0, i + 1) =~= a@.subrange(0, i as int).push(a@[i as int]));
        assert(b@.subrange(0, i + 1) =~= b@.subrange(0, i as int).push(b@[i as int]));
        i = i + 1;
    }
    assert(a@ =~= a@.subrange(0, n as int));
    assert(b@ =~= b@.subrange(0, n as int));
    true
}

/// Capacity in milliampere-hours for a chemistry and size given in
/// lowercase, or `None` when the table has no such pair.
pub fn capacity_for(chemistry: &str, size: &str) -> (r: Option<u16>)
    ensures
        r == capacity_spec(chemistry@, size@),
{
    let aa = same_text(size, "aa");
    let aaa = same_text(size, "aaa");
    if same_text(chemistry, "alkaline") {
        if aa {
            Some(2500)
        } else if aaa {
            Some(1200)
        } else {
            None
        }
    } else if same_text(chemistry, "nimh") {
        if aa {
            Some(2000)
        } else if aaa {
            Some(800)
        } else {
            None
        }
    } else if same_text(chemistry, "nicd") {
        if aa {
            Some(1000)
        } else if aaa {
            Some(300)
        } else {
            None
        }
    } else if same_text(chemistry, "lithium-ion") {
        if aa {
            Some(3500)
        } else if aaa {
            Some(2000)
        } else {
            None
        }
    } else {
        None
    }
}

/// Nominal voltage in millivolts for a chemistry given in lowercase, or
/// `None` when the table has no such chemistry.
pub fn voltage_for(chemistry: &str) -> (r: Option<u16>)
    ensures
        r == voltage_spec(chemistry@),
{
    if same_text(chemistry, "alkaline") {
        Some(1500)
    } else if same_text(chemistry, "nimh") {
        Some(1200)
    } else if same_text(chemistry, "nicd") {
        Some(1200)
    } else if same_text(chemistry, "lithium-ion") {
        Some(3700)
    } else {
        None
    }
}

/// Capacity in milliampere-hours of a battery, matching chemistry and size
/// without regard to letter case; `None` for a pair the table lacks.
pub fn get_battery_capacity(battery_type: &str, battery_size: &str) -> (r: Option<u16>)
    ensures
        r == capacity_spec(lower_of(battery_type@), lower_of(battery_size@)),
        battery_type.is_ascii() && battery_size.is_ascii() ==> r == capacity_spec(
            ascii_lower(battery_type@),
            ascii_lower(battery_size@),
        ),
{
    let chemistry = lowercase(battery_type);
    let size = lowercase(battery_size);
    capacity_for(chemistry.as_str(), size.as_str())
}

/// Nominal voltage in millivolts of a chemistry, matched without regard to
/// letter case; the size plays no part. `None` for an unknown chemistry.
pub fn get_battery_voltage(battery_type: &str, _battery_size: &str) -> (r: Option<u16>)
    ensures
        r == voltage_spec(lower_of(battery_type@)),
        battery_type.is_ascii() ==> r == voltage_spec(ascii_lower(battery_type@)),
{
    let chemistry = lowercase(battery_type);
    voltage_for(chemistry.as_str())
}

} // verus!
