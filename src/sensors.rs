//! Sensor readings rendered as short fields. Each takes what was read from
//! the system, with `None` where the reading failed, and never fails itself.

use vstd::prelude::*;
use crate::text::{decimal, signed_decimal, trim_of, i32_literal, int_text, trimmed, parse_i32, text_of};

verus! {

/// The family of one address assigned to a network interface.
#[derive(Clone, Copy, Debug, PartialEq, Eq, Structural)]
pub enum AddrKind {
    V4,
    V6,
    Empty,
    Unsupported,
}

/// Memory statistics, in bytes.
#[derive(Clone, Copy, Debug, PartialEq, Eq)]
pub struct Memory {
    pub total: u64,
    pub free: u64,
}

/// The rendering of a byte count by systemstat's `ByteSize`.
pub uninterp spec fn byte_size_of(n: u64) -> Seq<char>;

/// Relies on `Display` for `systemstat::ByteSize` (bytesize's `to_string(bytes, false)`):
/// below 1000 bytes it writes the number followed by " B".
#[verifier::external_body]
fn byte_size_text(n: u64) -> (r: String)
    ensures
        r@ == byte_size_of(n),
        n < 1000 ==> r@ == decimal(n as nat) + " B"@,
{
    systemstat::ByteSize::b(n).to_string()
}

/// The count that a command printed, as the trimmed output read as an `i32`.
pub open spec fn count_in(out: Seq<char>) -> Option<int> {
    i32_literal(trim_of(out))
}

/// Whether a command printed `true`, white space around it aside.
pub open spec fn flag_in(out: Seq<char>) -> bool {
    trim_of(out) == "true"@
}

pub open spec fn mail_text(count: Option<int>) -> Seq<char> {
    match count {
        Some(n) => if n > 0 {
            "📧 "@ + decimal(n as nat)
        } else {
            Seq::empty()
        },
        None => Seq::empty(),
    }
}

pub open spec fn volume_icon(level: int) -> Seq<char> {
    if 0 <= level <= 33 {
        "🔈"@
    } else if 34 <= level <= 66 {
        "🔉"@
    } else {
        "🔊"@
    }
}

pub open spec fn volume_text(muted: Option<bool>, level: Option<int>) -> Seq<char> {
    if muted == Some(true) {
        "🔇"@
    } else {
        match level {
            Some(v) => volume_icon(v) + " "@ + signed_decimal(v),
            None => Seq::empty(),
        }
    }
}

/// Whether one of the addresses is an IPv4 address.
pub open spec fn has_v4(addrs: Seq<AddrKind>) -> bool {
    exists|i: int| 0 <= i < addrs.len() && addrs[i] == AddrKind::V4
}

pub open spec fn iface_has_v4(iface: Option<Seq<AddrKind>>) -> bool {
    match iface {
        Some(a) => has_v4(a),
        None => false,
    }
}

pub open spec fn network_text(wired: Option<Seq<AddrKind>>, wireless: Option<Seq<AddrKind>>) -> Seq<char> {
    if iface_has_v4(wired) {
        "⇅"@
    } else if iface_has_v4(wireless) {
        "📡"@
    } else {
        Seq::empty()
    }
}

pub open spec fn plugged_text(on_ac: Option<bool>) -> Seq<char> {
    if on_ac == Some(false) {
        "🔋"@
    } else {
        "🔌"@
    }
}

/// A count of hundredths (or tenths) written with two (or one) decimal places.
pub open spec fn fixed_point(n: nat, places: nat) -> Seq<char> {
    if places == 1 {
        decimal(n / 10) + "."@ + decimal(n % 10)
    } else {
        decimal(n / 100) + "."@ + (if n % 100 < 10 {
            "0"@
        } else {
            Seq::empty()
        }) + decimal(n % 100)
    }
}

pub open spec fn battery_text(on_ac: Option<bool>, tenths: Option<u32>) -> Seq<char> {
    match tenths {
        Some(t) => plugged_text(on_ac) + " "@ + fixed_point(t as nat, 1) + "%"@,
        None => Seq::empty(),
    }
}

pub open spec fn used_bytes(m: Memory) -> u64 {
    if m.free <= m.total {
        (m.total - m.free) as u64
    } else {
        0
    }
}

pub open spec fn ram_text(mem: Option<Memory>) -> Seq<char> {
    match mem {
        Some(m) => "▯ "@ + byte_size_of(used_bytes(m)),
        None => "▯ _"@,
    }
}

pub open spec fn cpu_text(hundredths: Option<u32>) -> Seq<char> {
    match hundredths {
        Some(h) => "⚙ "@ + fixed_point(h as nat, 2),
        None => "⚙ _"@,
    }
}

/// Reads the count that a command printed (an unread-mail count, a volume level).
pub fn read_count(out: &str) -> (r: Option<i32>)
    ensures
        r matches Some(v) <==> count_in(out@) is Some,
        r matches Some(v) ==> count_in(out@) == Some(v as int),
{
    parse_i32(trimmed(out))
}

/// Reads a yes-or-no answer that a command printed: yes only for `true`.
pub fn read_flag(out: &str) -> (r: bool)
    ensures
        r == flag_in(out@),
{
    let t = text_of(trimmed(out));
    let yes = text_of("true");
    t == yes
}

/// The unread-mail field: shown only for a positive count.
pub fn mail(count: Option<i32>) -> (r: String)
    ensures
        r@ == mail_text(match count {
            Some(n) => Some(n as int),
            None => None,
        }),
{
    match count {
        Some(n) => {
            if n > 0 {
                let mut r = text_of("📧 ");
                let digits = int_text(n as i64);
                r.append(digits.as_str());
                r
            } else {
                String::new()
            }
        },
        None => String::new(),
    }
}

fn volume_icon_str(level: i32) -> (r: &'static str)
    ensures
        r@ == volume_icon(level as int),
{
    if 0 <= level && level <= 33 {
        "🔈"
    } else if 34 <= level && level <= 66 {
        "🔉"
    } else {
        "🔊"
    }
}

/// The volume field: the muted icon alone when muted, else an icon by level and the level.
pub fn volume(muted: Option<bool>, level: Option<i32>) -> (r: String)
    ensures
        r@ == volume_text(muted, match level {
            Some(v) => Some(v as int),
            None => None,
        }),
{
    if let Some(true) = muted {
        return text_of("🔇");
    }
    match level {
        Some(v) => {
            let mut r = text_of(volume_icon_str(v));
            r.append(" ");
            let digits = int_text(v as i64);
            r.append(digits.as_str());
            r
        },
        None => String::new(),
    }
}

fn any_v4(addrs: &Vec<AddrKind>) -> (r: bool)
    ensures
        r == has_v4(addrs@),
{
    let mut i: usize = 0;
    while i < addrs.len()
        invariant
            i <= addrs@.len(),
            forall|j: int| 0 <= j < i ==> addrs@[j] != AddrKind::V4,
        decreases addrs@.len() - i,
    {
        if addrs[i] == AddrKind::V4 {
            return true;
        }
        i = i + 1;
    }
    false
}

fn iface_v4(iface: &Option<Vec<AddrKind>>) -> (r: bool)
    ensures
        r == iface_has_v4(match iface {
            Some(a) => Some(a@),
            None => None,
        }),
{
    match iface {
        Some(a) => any_v4(a),
        None => false,
    }
}

/// The network field: the wired icon when the wired interface has an IPv4
/// address, else the wireless icon when the wireless one has, else nothing.
pub fn network(wired: &Option<Vec<AddrKind>>, wireless: &Option<Vec<AddrKind>>) -> (r: String)
    ensures
        r@ == network_text(
            match wired {
                Some(a) => Some(a@),
                None => None,
            },
            match wireless {
                Some(a) => Some(a@),
                None => None,
            },
        ),
{
    if iface_v4(wired) {
        text_of("⇅")
    } else if iface_v4(wireless) {
        text_of("📡")
    } else {
        String::new()
    }
}

/// The power icon: the battery only when the system says it is not on AC
/// power; plugged when it is, or when the question could not be answered.
pub fn plugged(on_ac: Option<bool>) -> (r: String)
    ensures
        r@ == plugged_text(on_ac),
{
    if let Some(false) = on_ac {
        text_of("🔋")
    } else {
        text_of("🔌")
    }
}

fn fixed_text(n: u32, places: u32) -> (r: String)
    requires
        places == 1 || places == 2,
    ensures
        r@ == fixed_point(n as nat, places as nat),
{
    let unit: u32 = if places == 1 { 10 } else { 100 };
    let mut r = int_text((n / unit) as i64);
    r.append(".");
    let frac = n % unit;
    if places == 2 && frac < 10 {
        r.append("0");
    }
    let digits = int_text(frac as i64);
    r.append(digits.as_str());
    r
}

/// The battery field: the power icon and the remaining capacity, given in
/// tenths of a percent, written with one decimal place.
pub fn battery(on_ac: Option<bool>, capacity_tenths: Option<u32>) -> (r: String)
    ensures
        r@ == battery_text(on_ac, capacity_tenths),
{
    match capacity_tenths {
        Some(t) => {
            let mut r = plugged(on_ac);
            r.append(" ");
            let amount = fixed_text(t, 1);
            r.append(amount.as_str());
            r.append("%");
            r
        },
        None => String::new(),
    }
}

/// The memory field: used memory (total less free), or a placeholder.
pub fn ram(mem: Option<Memory>) -> (r: String)
    ensures
        r@ == ram_text(mem),
{
    match mem {
        Some(m) => {
            let used = m.total.saturating_sub(m.free);
            let mut r = text_of("▯ ");
            let amount = byte_size_text(used);
            r.append(amount.as_str());
            r
        },
        None => text_of("▯ _"),
    }
}

/// The processor field: the one-minute load average, given in hundredths,
/// with two decimal places, or a placeholder.
pub fn cpu(load_hundredths: Option<u32>) -> (r: String)
    ensures
        r@ == cpu_text(load_hundredths),
{
    match load_hundredths {
        Some(h) => {
            let mut r = text_of("⚙ ");
            let amount = fixed_text(h, 2);
            r.append(amount.as_str());
            r
        },
        None => text_of("⚙ _"),
    }
}

} // verus!
