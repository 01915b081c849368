//! The setting of the continuous mode: which devices to poll.

use crate::error::ExportError;
use crate::poller::addresses_of;
use vstd::prelude::*;
use vstd::string::*;

verus! {

/// The port on which metrics are served where no other is set.
pub const DEFAULT_PORT: u16 = 8100;

/// The pieces of a comma-separated list, in order. Every comma ends a piece
/// and starts the next one; a piece may be empty.
pub open spec fn split_list(raw: Seq<char>) -> Seq<Seq<char>>
    decreases raw.len(),
{
    if raw.len() == 0 {
        seq![Seq::empty()]
    } else if raw.last() == ',' {
        split_list(raw.drop_last()).push(Seq::empty())
    } else {
        let head = split_list(raw.drop_last());
        head.update(head.len() - 1, head.last().push(raw.last()))
    }
}

/// Reads the list of device addresses from the value of its setting:
/// addresses separated by commas. A setting that is missing or empty is a
/// configuration error.
pub fn device_list(raw: Option<&str>) -> (r: Result<Vec<String>, ExportError>)
    ensures
        match r {
            Ok(devices) => {
                &&& raw matches Some(text) && text@.len() > 0 && addresses_of(devices@)
                    == split_list(text@)
                &&& devices@.len() > 0
            },
            Err(e) => e == ExportError::Config && (raw matches Some(text) ==> text@.len() == 0),
        },
{
    let text = match raw {
        Some(text) => text,
        None => return Err(ExportError::Config),
    };
    let len = text.unicode_len();
    if len == 0 {
        return Err(ExportError::Config);
    }
    let mut devices: Vec<String> = Vec::new();
    let mut start: usize = 0;
    let mut i: usize = 0;
    assert(text@.subrange(0, 0) =~= Seq::<char>::empty());
    assert(split_list(text@.subrange(0, 0)) =~= addresses_of(devices@).push(
        text@.subrange(0, 0),
    ));
    while i < len
        invariant
            len == text@.len(),
            start <= i <= len,
            split_list(text@.subrange(0, i as int)) == addresses_of(devices@).push(
                text@.subrange(start as int, i as int),
            ),
        decreases len - i,
    {
        let ghost before = addresses_of(devices@);
        let ghost piece = text@.subrange(start as int, i as int);
        proof {
            assert(text@.subrange(0, i + 1).drop_last() =~= text@.subrange(0, i as int));
            assert(before.push(piece).last() == piece);
        }
        if text.get_char(i) == ',' {
            devices.push(text.substring_char(start, i).to_owned());
            start = i + 1;
            assert(text@.subrange(start as int, i + 1) =~= Seq::<char>::empty());
            assert(addresses_of(devices@) =~= before.push(piece));
        } else {
            assert(text@.subrange(start as int, i + 1) =~= piece.push(text@[i as int]));
            assert(before.push(piece).update(before.len() as int, piece.push(text@[i as int]))
                =~= before.push(piece.push(text@[i as int])));
        }
        i = i + 1;
    }
    let ghost before = addresses_of(devices@);
    devices.push(text.substring_char(start, len).to_owned());
    assert(text@.subrange(0, len as int) =~= text@);
    assert(addresses_of(devices@) =~= before.push(text@.subrange(start as int, len as int)));
    Ok(devices)
}

} // verus!
