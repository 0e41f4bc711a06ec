//! The disks of the machine, read from the listing that the system's tool
//! writes as JSON.

use crate::disk::{BlockDevice, BlockDeviceView};
use crate::lists::{empty_list, push_deep};
use crate::process::{disk_listing_outcome, ran_view, report_result, ProcessOutput};
use crate::text;
use vstd::prelude::*;

verus! {

/// A JSON value of `serde_json`. What it holds is seen through the names
/// below.
#[verifier::external_type_specification]
#[verifier::external_body]
pub struct ExJsonValue(serde_json::Value);

/// The error of `serde_json`.
#[verifier::external_type_specification]
#[verifier::external_body]
pub struct ExJsonError(serde_json::Error);

/// The JSON value that a text is read as, where it is JSON.
pub uninterp spec fn json_parsed(text: Seq<char>) -> Option<serde_json::Value>;

/// The member of a JSON object under a key; none where the value is no
/// object or has no such member.
pub uninterp spec fn json_member(value: serde_json::Value, key: Seq<char>) -> Option<
    serde_json::Value,
>;

/// The elements of a JSON array; none where the value is no array.
pub uninterp spec fn json_items(value: serde_json::Value) -> Option<Seq<serde_json::Value>>;

/// The text of a JSON string; none where the value is no string.
pub uninterp spec fn json_text(value: serde_json::Value) -> Option<Seq<char>>;

/// The number that a JSON number holds, where it is a whole number from 0
/// to the largest `u64`; none for any other number and for what is no
/// number.
pub uninterp spec fn json_unsigned(value: serde_json::Value) -> Option<u64>;

/// Reads a text as JSON.
///
/// Trusted: `serde_json::from_str` for `serde_json::Value`. What it
/// returns depends on the text alone; the contract names the value and
/// says that an error stands for a text that is not read as JSON.
#[verifier::external_body]
fn parse_json(text: &str) -> (r: Result<serde_json::Value, serde_json::Error>)
    ensures
        match r {
            Ok(value) => json_parsed(text@) == Some(value),
            Err(_) => json_parsed(text@) is None,
        },
{
    serde_json::from_str(text)
}

/// What an error of the JSON reader says.
///
/// Trusted: the `Display` of `serde_json::Error`, through `to_string`.
/// Nothing is claimed of the text.
#[verifier::external_body]
fn json_error_message(error: &serde_json::Error) -> String {
    error.to_string()
}

/// The member of a JSON object under a key.
///
/// Trusted: `serde_json::Value::get` with a string index, which returns
/// the member of an object under that key and nothing for a value that is
/// no object or has no such member.
#[verifier::external_body]
fn json_get<'a>(value: &'a serde_json::Value, key: &str) -> (r: Option<&'a serde_json::Value>)
    ensures
        match r {
            Some(member) => json_member(*value, key@) == Some(*member),
            None => json_member(*value, key@) is None,
        },
{
    value.get(key)
}

/// The elements of a JSON array.
///
/// Trusted: `serde_json::Value::as_array`, which returns the vector of an
/// array and nothing for any other value.
#[verifier::external_body]
fn json_as_array<'a>(value: &'a serde_json::Value) -> (r: Option<&'a Vec<serde_json::Value>>)
    ensures
        match r {
            Some(items) => json_items(*value) == Some(items@),
            None => json_items(*value) is None,
        },
{
    value.as_array()
}

/// The text of a JSON string.
///
/// Trusted: `serde_json::Value::as_str`, which returns the text of a
/// string and nothing for any other value.
#[verifier::external_body]
fn json_as_str<'a>(value: &'a serde_json::Value) -> (r: Option<&'a str>)
    ensures
        match r {
            Some(s) => json_text(*value) == Some(s@),
            None => json_text(*value) is None,
        },
{
    value.as_str()
}

/// The number that a JSON number holds, as a `u64`.
///
/// Trusted: `serde_json::Value::as_u64`, which returns the number where
/// the value is a number that is a whole number in the range of `u64`, and
/// nothing otherwise.
#[verifier::external_body]
fn json_as_u64(value: &serde_json::Value) -> (r: Option<u64>)
    ensures
        r == json_unsigned(*value),
{
    value.as_u64()
}

/// The smallest size, in bytes, of a disk that is offered.
pub const MIN_DISK_BYTES: u64 = 1_000_000_000;

/// The number of bytes in a GiB.
pub const GIB: u64 = 1_073_741_824;

/// The number of bytes in a TiB.
pub const TIB: u64 = 1_099_511_627_776;

/// A size in tenths of a unit, rounded to the nearest tenth, and to the
/// even one of two that are equally near.
pub open spec fn tenths(bytes: u64, unit: u64) -> nat {
    let q = bytes as nat * 10 / unit as nat;
    let r = bytes as nat * 10 % unit as nat;
    if 2 * r > unit || (2 * r == unit && q % 2 == 1) {
        q + 1
    } else {
        q
    }
}

/// A number of tenths written with one decimal place.
pub open spec fn fixed1(tenths: nat) -> Seq<char> {
    text::decimal(tenths / 10) + "."@ + text::decimal(tenths % 10)
}

/// A size as it is shown: in TiB from one TiB on, else in GiB, with one
/// decimal place.
pub open spec fn size_text(bytes: u64) -> Seq<char> {
    if bytes >= TIB {
        fixed1(tenths(bytes, TIB)) + " TiB"@
    } else {
        fixed1(tenths(bytes, GIB)) + " GiB"@
    }
}

fn tenths_of(bytes: u64, unit: u64) -> (t: u64)
    requires
        unit == GIB || unit == TIB,
    ensures
        t == tenths(bytes, unit),
{
    let scaled: u128 = bytes as u128 * 10;
    let q: u128 = scaled / unit as u128;
    let r: u128 = scaled % unit as u128;
    assert(q <= scaled) by (nonlinear_arith)
        requires
            q == scaled / unit as u128,
            unit >= 1,
    ;
    assert(q < 0x1_0000_0000_0000_0000) by (nonlinear_arith)
        requires
            q == scaled / unit as u128,
            scaled == bytes as u128 * 10,
            unit >= 1_073_741_824,
            bytes <= 0xffff_ffff_ffff_ffff,
    ;
    if 2 * r > unit as u128 || (2 * r == unit as u128 && q % 2 == 1) {
        (q + 1) as u64
    } else {
        q as u64
    }
}

/// Writes a size as it is shown.
pub fn format_bytes(bytes: u64) -> (s: String)
    ensures
        s@ == size_text(bytes),
{
    let in_tib = bytes >= TIB;
    let t = if in_tib {
        tenths_of(bytes, TIB)
    } else {
        tenths_of(bytes, GIB)
    };
    let mut s = text::decimal_string(t / 10);
    s.append(".");
    text::push_decimal(&mut s, t % 10);
    if in_tib {
        s.append(" TiB");
    } else {
        s.append(" GiB");
    }
    s
}

/// Whether a device is kept from the operator by its name: loop devices
/// and RAM disks.
pub open spec fn is_pseudo_device(name: Seq<char>) -> bool {
    "loop"@.is_prefix_of(name) || "ram"@.is_prefix_of(name) || "zram"@.is_prefix_of(name)
}

/// The size that an entry of the listing gives: its member `size` where
/// that is a number, or a string that writes one; zero otherwise.
pub open spec fn entry_size(entry: serde_json::Value) -> u64 {
    match json_member(entry, "size"@) {
        Some(size) => match json_unsigned(size) {
            Some(n) => n,
            None => match json_text(size) {
                Some(s) => match text::parsed_u64(s) {
                    Some(n) => n,
                    None => 0,
                },
                None => 0,
            },
        },
        None => 0,
    }
}

/// The model that an entry of the listing gives: its member `model` where
/// that is a string, without the white space around it.
pub open spec fn entry_model(entry: serde_json::Value) -> Seq<char> {
    text::trimmed(
        match json_member(entry, "model"@) {
            Some(model) => match json_text(model) {
                Some(s) => s,
                None => "Unknown"@,
            },
            None => "Unknown"@,
        },
    )
}

/// The name that an entry of the listing gives, where it gives one.
pub open spec fn entry_name(entry: serde_json::Value) -> Option<Seq<char>> {
    match json_member(entry, "name"@) {
        Some(name) => json_text(name),
        None => None,
    }
}

/// The disk that an entry of the listing stands for, where it is one to
/// offer: it has a name, which is not that of a loop device or a RAM disk,
/// and it is not too small.
pub open spec fn device_of(entry: serde_json::Value) -> Option<BlockDeviceView> {
    match entry_name(entry) {
        Some(name) => if entry_size(entry) < MIN_DISK_BYTES || is_pseudo_device(name) {
            None
        } else {
            Some(
                BlockDeviceView {
                    name,
                    path: "/dev/"@ + name,
                    size_bytes: entry_size(entry),
                    size_human: size_text(entry_size(entry)),
                    model: entry_model(entry),
                },
            )
        },
        None => None,
    }
}

/// The disks that the entries of a listing stand for, in the order of the
/// listing.
pub open spec fn devices_of(entries: Seq<serde_json::Value>) -> Seq<BlockDeviceView>
    decreases entries.len(),
{
    if entries.len() == 0 {
        Seq::empty()
    } else {
        match device_of(entries.last()) {
            Some(device) => devices_of(entries.drop_last()).push(device),
            None => devices_of(entries.drop_last()),
        }
    }
}

/// The disks that a listing offers: those of the array under
/// `blockdevices`, and none where there is no such array.
pub open spec fn listed_devices(listing: serde_json::Value) -> Seq<BlockDeviceView> {
    match json_member(listing, "blockdevices"@) {
        Some(entries) => match json_items(entries) {
            Some(items) => devices_of(items),
            None => Seq::empty(),
        },
        None => Seq::empty(),
    }
}

fn size_of_entry(entry: &serde_json::Value) -> (size: u64)
    ensures
        size == entry_size(*entry),
{
    match json_get(entry, "size") {
        Some(size) => match json_as_u64(size) {
            Some(n) => n,
            None => match json_as_str(size) {
                Some(s) => match text::parse_u64(s) {
                    Some(n) => n,
                    None => 0,
                },
                None => 0,
            },
        },
        None => 0,
    }
}

fn model_of_entry(entry: &serde_json::Value) -> (model: String)
    ensures
        model@ == entry_model(*entry),
{
    match json_get(entry, "model") {
        Some(model) => match json_as_str(model) {
            Some(s) => text::trim(s),
            None => text::trim("Unknown"),
        },
        None => text::trim("Unknown"),
    }
}

fn is_pseudo(name: &str) -> (r: bool)
    ensures
        r == is_pseudo_device(name@),
{
    let v = text::chars_of(name);
    let a = text::chars_of("loop");
    let b = text::chars_of("ram");
    let c = text::chars_of("zram");
    text::starts_with(&v, &a) || text::starts_with(&v, &b) || text::starts_with(&v, &c)
}

fn read_device(entry: &serde_json::Value) -> (r: Option<BlockDevice>)
    ensures
        r.deep_view() == device_of(*entry),
{
    let name = match json_get(entry, "name") {
        Some(name) => match json_as_str(name) {
            Some(s) => String::from_str(s),
            None => {
                return None;
            },
        },
        None => {
            return None;
        },
    };
    let size = size_of_entry(entry);
    if size < MIN_DISK_BYTES || is_pseudo(name.as_str()) {
        return None;
    }
    let mut path = String::from_str("/dev/");
    path.append(name.as_str());
    Some(
        BlockDevice {
            name,
            path,
            size_bytes: size,
            size_human: format_bytes(size),
            model: model_of_entry(entry),
        },
    )
}

/// Picks the disks to offer from a listing that has been read as JSON.
pub fn select_block_devices(listing: &serde_json::Value) -> (devices: Vec<BlockDevice>)
    ensures
        devices.deep_view() == listed_devices(*listing),
{
    let mut devices: Vec<BlockDevice> = empty_list();
    let entries = match json_get(listing, "blockdevices") {
        Some(entries) => match json_as_array(entries) {
            Some(items) => items,
            None => {
                return devices;
            },
        },
        None => {
            return devices;
        },
    };
    let mut i: usize = 0;
    assert(entries@.take(0) =~= Seq::<serde_json::Value>::empty());
    while i < entries.len()
        invariant
            i <= entries.len(),
            devices.deep_view() == devices_of(entries@.take(i as int)),
        decreases entries.len() - i,
    {
        proof {
            assert(entries@.take(i + 1).drop_last() == entries@.take(i as int));
            assert(entries@.take(i + 1).last() == entries@[i as int]);
        }
        match read_device(&entries[i]) {
            Some(device) => {
                push_deep(&mut devices, device);
            },
            None => {},
        }
        i += 1;
    }
    assert(entries@.take(entries.len() as int) == entries@);
    devices
}

/// What the listing of the disks gives, from what running the tool gave:
/// the disks to offer, or why there are none. A listing that is not JSON
/// is an error that begins with `Failed to parse lsblk output: `.
pub fn list_block_devices(ran: &Result<ProcessOutput, String>) -> (r: Result<
    Vec<BlockDevice>,
    String,
>)
    ensures
        match report_result("lsblk"@, " "@, ran_view(*ran)) {
            Err(why) => r is Err && r->Err_0@ == why,
            Ok(listing) => match json_parsed(listing) {
                Some(value) => r is Ok && r->Ok_0.deep_view() == listed_devices(value),
                None => r is Err && "Failed to parse lsblk output: "@.is_prefix_of(r->Err_0@),
            },
        },
{
    match disk_listing_outcome(ran) {
        Err(why) => Err(why),
        Ok(listing) => match parse_json(listing.as_str()) {
            Ok(value) => Ok(select_block_devices(&value)),
            Err(error) => {
                let mut msg = String::from_str("Failed to parse lsblk output: ");
                let ghost head = msg@;
                msg.append(json_error_message(&error).as_str());
                assert(msg@.subrange(0, head.len() as int) =~= head);
                Err(msg)
            },
        },
    }
}

} // verus!
