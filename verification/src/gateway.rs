//! The message gateway of the peripheral scanner: where its lines go, and
//! what it says when they cannot be sent.

use crate::errors::{prefixed, words};
use vstd::prelude::*;
use vstd::string::StringExecFns;

verus! {

/// Something that takes the scanner's lines.
pub trait Gateway {
    /// Sends `data`; the result holds the words of the failure where the
    /// data could not be sent.
    fn send(&self, data: &[u8]) -> Option<String>;
}

/// Whether the gateway has to connect before it can send: it does while it
/// has no connection.
pub fn needs_reconnect(connected: bool) -> (b: bool)
    ensures
        b == !connected,
{
    !connected
}

/// What a reconnection reports: nothing where the connection was made,
/// else the words of the failure behind a fixed prefix.
pub fn reconnect_report(failure: Option<&str>) -> (r: Option<String>)
    ensures
        report_words(r) == prefixed("Failed to reconnect TCP stream: "@, words(failure)),
{
    match failure {
        None => None,
        Some(why) => {
            let mut text = "Failed to reconnect TCP stream: ".to_owned();
            text.append(why);
            Some(text)
        },
    }
}

/// What sending reports, as a mathematical value: a missing connection comes
/// first, then a failed write, then a failed flush.
pub open spec fn send_outcome(
    unavailable: Option<Seq<char>>,
    write: Option<Seq<char>>,
    flush: Option<Seq<char>>,
) -> Option<Seq<char>> {
    match unavailable {
        Some(why) => Some("TCP connection is not available: "@ + why),
        None => match write {
            Some(why) => Some("Failed to write bytes to TCP stream: "@ + why),
            None => match flush {
                Some(why) => Some("Failed to flush bytes to TCP stream: "@ + why),
                None => None,
            },
        },
    }
}

/// The mathematical value of a report.
pub open spec fn report_words(text: Option<String>) -> Option<Seq<char>> {
    match text {
        Some(t) => Some(t@),
        None => None,
    }
}

/// What sending reports. `unavailable` holds why there is no connection,
/// where there is none; `write` and `flush` hold the words of a failed write
/// and of a failed flush. Nothing is reported where the data went out.
pub fn send_report(unavailable: Option<&str>, write: Option<&str>, flush: Option<&str>) -> (r:
    Option<String>)
    ensures
        report_words(r) == send_outcome(words(unavailable), words(write), words(flush)),
{
    match unavailable {
        Some(why) => {
            let mut text = "TCP connection is not available: ".to_owned();
            text.append(why);
            Some(text)
        },
        None => match write {
            Some(why) => {
                let mut text = "Failed to write bytes to TCP stream: ".to_owned();
                text.append(why);
                Some(text)
            },
            None => match flush {
                Some(why) => {
                    let mut text = "Failed to flush bytes to TCP stream: ".to_owned();
                    text.append(why);
                    Some(text)
                },
                None => None,
            },
        },
    }
}

/// The name under which a device is listed: its own, or `Unnamed` where it
/// gives none.
pub open spec fn listed_name(local_name: Option<Seq<char>>) -> Seq<char> {
    match local_name {
        Some(name) => name,
        None => "Unnamed"@,
    }
}

/// The name under which a device is listed: its own, or `Unnamed` where it
/// gives none.
pub fn device_name(local_name: Option<&str>) -> (name: String)
    ensures
        name@ == listed_name(words(local_name)),
{
    match local_name {
        Some(name) => name.to_owned(),
        None => "Unnamed".to_owned(),
    }
}

/// The line that announces a device.
pub fn device_line(name: &str) -> (line: String)
    ensures
        line@ == "Device: "@ + name@ + "\n"@,
{
    let mut line = "Device: ".to_owned();
    line.append(name);
    line.append("\n");
    line
}

/// The line that announces a service of a device; `service` is the text of
/// the service's identifier.
pub fn service_line(service: &str) -> (line: String)
    ensures
        line@ == "Service: "@ + service@ + "\n"@,
{
    let mut line = "Service: ".to_owned();
    line.append(service);
    line.append("\n");
    line
}

/// The word for a truth value.
pub open spec fn truth_text(b: bool) -> Seq<char> {
    if b {
        "true"@
    } else {
        "false"@
    }
}

/// Whether the bit with the given mask is set in the properties of a
/// characteristic.
pub open spec fn has_property(properties: u8, mask: u8) -> bool {
    properties & mask != 0
}

/// A line with one more property written behind it: the label, then the
/// truth value of the bit with the given mask.
pub open spec fn with_property(line: Seq<char>, label: Seq<char>, properties: u8, mask: u8) -> Seq<
    char,
> {
    line + label + truth_text(has_property(properties, mask))
}

/// A line with the chart of the properties of a characteristic written
/// behind it: one truth value for each of the eight properties, from
/// broadcast (bit 0) to extended properties (bit 7), as in
/// `b:true,r:false,w:false,wr:true,n:false,i:false,a:false,e:false`.
pub open spec fn with_chart(line: Seq<char>, properties: u8) -> Seq<char> {
    let b = with_property(line, "b:"@, properties, 0x01);
    let r = with_property(b, ",r:"@, properties, 0x02);
    let w = with_property(r, ",w:"@, properties, 0x04);
    let wr = with_property(w, ",wr:"@, properties, 0x08);
    let n = with_property(wr, ",n:"@, properties, 0x10);
    let i = with_property(n, ",i:"@, properties, 0x20);
    let a = with_property(i, ",a:"@, properties, 0x40);
    with_property(a, ",e:"@, properties, 0x80)
}

/// Appends a label and the truth value of one property.
fn append_property(line: &mut String, label: &str, properties: u8, mask: u8)
    ensures
        final(line)@ == with_property(old(line)@, label@, properties, mask),
{
    line.append(label);
    if properties & mask != 0 {
        line.append("true");
    } else {
        line.append("false");
    }
}

/// The line that announces a characteristic of a device: the text of its
/// identifier and the chart of its properties.
pub fn characteristic_line(characteristic: &str, properties: u8) -> (line: String)
    ensures
        line@ == with_chart("Characteristic["@ + characteristic@ + "]: "@, properties) + "\n"@,
{
    let mut line = "Characteristic[".to_owned();
    line.append(characteristic);
    line.append("]: ");
    append_property(&mut line, "b:", properties, 0x01);
    append_property(&mut line, ",r:", properties, 0x02);
    append_property(&mut line, ",w:", properties, 0x04);
    append_property(&mut line, ",wr:", properties, 0x08);
    append_property(&mut line, ",n:", properties, 0x10);
    append_property(&mut line, ",i:", properties, 0x20);
    append_property(&mut line, ",a:", properties, 0x40);
    append_property(&mut line, ",e:", properties, 0x80);
    line.append("\n");
    line
}

} // verus!
