//! The hypervisor's monitor: where its socket lies, what is asked of it, and
//! how its answer is read.
//!
//! The monitor is asked for its user-mode network. Among the lines of the
//! answer, the one that names a forward to the guest's port 22 gives the port
//! of the host on which the guest's SSH server is reached.

use crate::text::{join_path, joined};
use crate::{IoFailure, IoKind};
use vstd::prelude::*;

verus! {

/// The guest port of the SSH server.
pub const SSH_PORT: u16 = 22;

/// The name of the monitor's socket inside its directory.
pub fn socket_name() -> (name: &'static str)
    ensures
        name@ == "monitor.sock"@,
{
    "monitor.sock"
}

/// The request that makes the monitor print its user-mode network.
pub fn request() -> (text: &'static str)
    ensures
        text@ == "info usernet\n"@,
{
    "info usernet\n"
}

/// The path of the monitor's socket in the directory `dir`.
pub fn socket(dir: &str) -> (path: String)
    ensures
        path@ == joined(dir@, "monitor.sock"@),
{
    join_path(dir, socket_name())
}

/// Whether `b` is ASCII white space: space, tab, line feed, form feed or
/// carriage return.
pub open spec fn is_space(b: u8) -> bool {
    b == 0x20 || b == 0x09 || b == 0x0a || b == 0x0c || b == 0x0d
}

/// The fields of `rest` where the bytes `current` before it belong to a field
/// that has begun.
pub open spec fn fields_from(rest: Seq<u8>, current: Seq<u8>) -> Seq<Seq<u8>>
    decreases rest.len(),
{
    let done = if current.len() > 0 {
        seq![current]
    } else {
        Seq::empty()
    };
    if rest.len() == 0 {
        done
    } else if is_space(rest[0]) {
        done + fields_from(rest.drop_first(), Seq::empty())
    } else {
        fields_from(rest.drop_first(), current.push(rest[0]))
    }
}

/// The fields of a line: its longest runs of bytes that are not white space.
pub open spec fn fields(line: Seq<u8>) -> Seq<Seq<u8>> {
    fields_from(line, Seq::empty())
}

/// The bytes of `HOST_FORWARD`, which marks a line that describes a forward.
pub open spec fn marker() -> Seq<u8> {
    seq![72u8, 79u8, 83u8, 84u8, 95u8, 70u8, 79u8, 82u8, 87u8, 65u8, 82u8, 68u8]
}

/// Whether the marker occurs in `field`.
pub open spec fn has_marker(field: Seq<u8>) -> bool {
    exists|i: int|
        0 <= i && i + 12 <= field.len() && #[trigger] field.subrange(i, i + 12) == marker()
}

/// Whether `b` is an ASCII digit.
pub open spec fn is_digit_byte(b: u8) -> bool {
    48 <= b <= 57
}

/// Whether `text` holds ASCII digits only.
pub open spec fn all_digits(text: Seq<u8>) -> bool {
    forall|i: int| 0 <= i < text.len() ==> is_digit_byte(#[trigger] text[i])
}

/// The number that the digits of `text` write in decimal notation.
pub open spec fn digits_value(text: Seq<u8>) -> nat
    decreases text.len(),
{
    if text.len() == 0 {
        0
    } else {
        digits_value(text.drop_last()) * 10 + (if text.last() >= 48 {
            (text.last() - 48) as nat
        } else {
            0
        })
    }
}

/// The digits of a field that may start with a plus sign.
pub open spec fn unsigned_part(field: Seq<u8>) -> Seq<u8> {
    if field.len() > 0 && field[0] == 43 {
        field.drop_first()
    } else {
        field
    }
}

/// The port that `field` writes: decimal digits, at least one, with an
/// optional plus sign before them, and a value of at most 65535.
pub open spec fn port_of(field: Seq<u8>) -> Option<u16> {
    let digits = unsigned_part(field);
    if digits.len() > 0 && all_digits(digits) && digits_value(digits) <= 65535 {
        Some(digits_value(digits) as u16)
    } else {
        None
    }
}

/// The host port that `line` forwards to the guest's SSH port, if it
/// describes such a forward: its first field holds the marker, its fourth
/// field is the host port and its sixth field is the guest port 22.
pub open spec fn forward_of(line: Seq<u8>) -> Option<u16> {
    let all = fields(line);
    if all.len() >= 6 && has_marker(all[0]) && port_of(all[3]) is Some && port_of(all[5]) == Some(
        SSH_PORT,
    ) {
        port_of(all[3])
    } else {
        None
    }
}

/// The bytes of each line.
pub open spec fn line_views(lines: Seq<Vec<u8>>) -> Seq<Seq<u8>> {
    Seq::new(lines.len(), |i: int| lines[i]@)
}

/// The host port of the first line that describes a forward to the guest's
/// SSH port.
pub open spec fn first_forward(lines: Seq<Seq<u8>>) -> Option<u16>
    decreases lines.len(),
{
    if lines.len() == 0 {
        None
    } else {
        match forward_of(lines[0]) {
            Some(port) => Some(port),
            None => first_forward(lines.drop_first()),
        }
    }
}

/// The value of a prefix of digits is at most the value of the whole.
pub proof fn lemma_prefix_value(text: Seq<u8>, k: int)
    requires
        0 <= k <= text.len(),
    ensures
        digits_value(text.take(k)) <= digits_value(text),
    decreases text.len(),
{
    if k == text.len() {
        assert(text.take(k) =~= text);
    } else {
        assert(text.drop_last().take(k) =~= text.take(k));
        lemma_prefix_value(text.drop_last(), k);
    }
}

/// Splits a line into its fields.
pub fn split_fields(line: &[u8]) -> (found: Vec<Vec<u8>>)
    ensures
        line_views(found@) == fields(line@),
{
    let mut found: Vec<Vec<u8>> = Vec::new();
    let mut current: Vec<u8> = Vec::new();
    let mut i: usize = 0;
    proof {
        assert(line@.skip(0) =~= line@);
        assert(line_views(found@) =~= Seq::<Seq<u8>>::empty());
        assert(line_views(found@) + fields_from(line@, current@) =~= fields(line@));
    }
    while i < line.len()
        invariant
            i <= line@.len(),
            fields(line@) == line_views(found@) + fields_from(line@.skip(i as int), current@),
        decreases line@.len() - i,
    {
        let b = line[i];
        let ghost rest = line@.skip(i as int);
        let ghost before = line_views(found@);
        let ghost open = current@;
        proof {
            assert(rest[0] == b);
            assert(rest.drop_first() =~= line@.skip(i + 1));
            assert(fields_from(rest, open) == if is_space(b) {
                (if open.len() > 0 {
                    seq![open]
                } else {
                    Seq::empty()
                }) + fields_from(rest.drop_first(), Seq::empty())
            } else {
                fields_from(rest.drop_first(), open.push(b))
            });
        }
        if b == 0x20 || b == 0x09 || b == 0x0a || b == 0x0c || b == 0x0d {
            if current.len() > 0 {
                let mut done: Vec<u8> = Vec::new();
                core::mem::swap(&mut current, &mut done);
                found.push(done);
                proof {
                    assert(current@ =~= Seq::<u8>::empty());
                    assert(line_views(found@) =~= before + seq![done@]);
                    assert(before + (seq![done@] + fields_from(line@.skip(i + 1), Seq::empty()))
                        =~= line_views(found@) + fields_from(line@.skip(i + 1), Seq::empty()));
                }
            } else {
                proof {
                    assert(current@ =~= Seq::<u8>::empty());
                    assert(Seq::<Seq<u8>>::empty() + fields_from(line@.skip(i + 1), Seq::empty())
                        =~= fields_from(line@.skip(i + 1), Seq::empty()));
                }
            }
        } else {
            current.push(b);
        }
        i += 1;
    }
    proof {
        assert(line@.skip(i as int).len() == 0);
    }
    let ghost before = line_views(found@);
    if current.len() > 0 {
        found.push(current);
        proof {
            assert(line_views(found@) =~= before + seq![current@]);
        }
    } else {
        proof {
            assert(before + Seq::<Seq<u8>>::empty() =~= before);
        }
    }
    found
}

/// Whether the marker `HOST_FORWARD` occurs in `field`.
pub fn contains_marker(field: &[u8]) -> (found: bool)
    ensures
        found == has_marker(field@),
{
    let wanted: [u8; 12] = [72, 79, 83, 84, 95, 70, 79, 82, 87, 65, 82, 68];
    assert(wanted@ =~= marker());
    if field.len() < 12 {
        return false;
    }
    let last: usize = field.len() - 12;
    let mut i: usize = 0;
    while i <= last
        invariant
            i <= last + 1,
            last + 12 == field@.len(),
            field@.len() <= usize::MAX,
            wanted@ == marker(),
            forall|k: int| 0 <= k < i ==> #[trigger] field@.subrange(k, k + 12) != marker(),
        decreases last + 1 - i,
    {
        let mut j: usize = 0;
        while j < 12 && field[i + j] == wanted[j]
            invariant
                j <= 12,
                i <= last,
                last + 12 == field@.len(),
                wanted@ == marker(),
                field@.len() <= usize::MAX,
                forall|m: int| 0 <= m < j ==> field@[i + m] == marker()[m],
            decreases 12 - j,
        {
            j += 1;
        }
        if j == 12 {
            proof {
                assert(field@.subrange(i as int, i + 12) =~= marker());
            }
            return true;
        }
        proof {
            assert(field@.subrange(i as int, i + 12)[j as int] == field@[i + j]);
        }
        i += 1;
    }
    proof {
        if has_marker(field@) {
            let k = choose|k: int|
                0 <= k && k + 12 <= field@.len() && #[trigger] field@.subrange(k, k + 12)
                    == marker();
            assert(k < i);
        }
    }
    false
}

/// Reads a port from a field.
pub fn parse_port(field: &[u8]) -> (port: Option<u16>)
    ensures
        port == port_of(field@),
{
    let start: usize = if field.len() > 0 && field[0] == 43 {
        1
    } else {
        0
    };
    let ghost digits = unsigned_part(field@);
    proof {
        assert(digits =~= field@.skip(start as int));
    }
    if start == field.len() {
        return None;
    }
    let mut value: u32 = 0;
    let mut i: usize = start;
    proof {
        assert(digits.take(0) =~= Seq::<u8>::empty());
    }
    while i < field.len()
        invariant
            start <= i <= field@.len(),
            digits == unsigned_part(field@),
            digits == field@.skip(start as int),
            value == digits_value(digits.take(i - start)),
            value <= 65535,
            forall|k: int| 0 <= k < i - start ==> is_digit_byte(#[trigger] digits[k]),
        decreases field@.len() - i,
    {
        let b = field[i];
        proof {
            assert(digits[i - start] == b);
            assert(digits.take(i - start + 1).drop_last() =~= digits.take(i - start));
            assert(digits.take(i - start + 1).last() == b);
        }
        if b < 48 || b > 57 {
            return None;
        }
        value = value * 10 + (b - 48) as u32;
        if value > 65535 {
            proof {
                lemma_prefix_value(digits, i - start + 1);
            }
            return None;
        }
        i += 1;
    }
    proof {
        assert(digits.take(i - start) =~= digits);
    }
    Some(value as u16)
}

/// The host port that `line` forwards to the guest's SSH port, if the line
/// describes such a forward.
pub fn forwarded_port(line: &[u8]) -> (port: Option<u16>)
    ensures
        port == forward_of(line@),
{
    let all = split_fields(line);
    if all.len() < 6 {
        return None;
    }
    proof {
        assert(line_views(all@)[0] == all@[0]@);
        assert(line_views(all@)[3] == all@[3]@);
        assert(line_views(all@)[5] == all@[5]@);
    }
    if !contains_marker(all[0].as_slice()) {
        return None;
    }
    let host = parse_port(all[3].as_slice());
    let guest = parse_port(all[5].as_slice());
    match (host, guest) {
        (Some(host), Some(guest)) => {
            if guest == SSH_PORT {
                Some(host)
            } else {
                None
            }
        },
        _ => None,
    }
}

/// The message of the failure to find a forward.
pub open spec fn no_forward_message() -> Seq<char> {
    "no SSH port forward found in network info received from the QEMU monitor"@
}

/// The host port on which the guest's SSH server is reached, read from the
/// lines of the monitor's answer: the port of the first line that describes
/// a forward to the guest's port 22. Without such a line the port is not found.
pub fn ssh_port(lines: &Vec<Vec<u8>>) -> (port: Result<u16, IoFailure>)
    ensures
        port is Ok <==> first_forward(line_views(lines@)) is Some,
        port matches Ok(found) ==> first_forward(line_views(lines@)) == Some(found),
        port matches Err(error) ==> error.kind == IoKind::NotFound && error.message@
            == no_forward_message(),
{
    let mut i: usize = 0;
    proof {
        assert(line_views(lines@).skip(0) =~= line_views(lines@));
    }
    while i < lines.len()
        invariant
            i <= lines@.len(),
            first_forward(line_views(lines@)) == first_forward(line_views(lines@).skip(i as int)),
        decreases lines@.len() - i,
    {
        proof {
            let rest = line_views(lines@).skip(i as int);
            assert(rest[0] == lines@[i as int]@);
            assert(rest.drop_first() =~= line_views(lines@).skip(i + 1));
        }
        if let Some(found) = forwarded_port(lines[i].as_slice()) {
            return Ok(found);
        }
        i += 1;
    }
    Err(
        IoFailure {
            kind: IoKind::NotFound,
            message: "no SSH port forward found in network info received from the QEMU monitor"
                .to_owned(),
        },
    )
}

} // verus!
