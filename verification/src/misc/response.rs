//! Response files: files that hold arguments for the command line. An
//! argument `@name` stands for the arguments in the file `name.rsp`.
//!
//! The arguments of a response file are parted by blanks. Double quotes
//! keep blanks within an argument and are no part of it themselves.

use vstd::prelude::*;
use vstd::string::*;
use vstd::utf8::{
    decode_utf8, encode_utf8, encode_utf8_decode_utf8, encode_utf8_valid_utf8, is_char_boundary,
    valid_utf8,
};

use crate::error::StartupError;
use crate::misc::args::texts;
use crate::misc::text::{str_begins_with_byte, text_begins_with_byte};

verus! {

/// Whether a byte is a blank: a space, a tab, a line feed, a form feed
/// or a carriage return.
pub open spec fn is_blank(b: u8) -> bool {
    b == 0x20 || b == 0x09 || b == 0x0a || b == 0x0c || b == 0x0d
}

/// The arguments that the bytes of a response file hold from index `i`
/// on, behind the arguments `done` that were read already.
///
/// `in_argument` says whether an argument has begun, `current` is what
/// was read of it, and `quoted` says whether a quote is open. A blank
/// outside quotes ends an argument; a quote opens or closes and is
/// dropped; any other byte belongs to the argument. A quote that is
/// still open at the end of the file is a failure.
pub open spec fn arguments_from(
    bytes: Seq<u8>,
    i: int,
    in_argument: bool,
    quoted: bool,
    current: Seq<u8>,
    done: Seq<Seq<u8>>,
) -> Result<Seq<Seq<u8>>, StartupError>
    decreases bytes.len() - i,
{
    if i >= bytes.len() {
        if quoted {
            Err(StartupError::RunawayQuote)
        } else if in_argument {
            Ok(done.push(current))
        } else {
            Ok(done)
        }
    } else if !quoted && is_blank(bytes[i]) {
        if in_argument {
            arguments_from(bytes, i + 1, false, false, Seq::<u8>::empty(), done.push(current))
        } else {
            arguments_from(bytes, i + 1, false, false, Seq::<u8>::empty(), done)
        }
    } else if bytes[i] == 0x22 {
        arguments_from(bytes, i + 1, true, !quoted, current, done)
    } else {
        arguments_from(bytes, i + 1, true, quoted, current.push(bytes[i]), done)
    }
}

/// The arguments that the bytes of a response file hold.
pub open spec fn arguments_of(bytes: Seq<u8>) -> Result<Seq<Seq<u8>>, StartupError> {
    arguments_from(bytes, 0, false, false, Seq::<u8>::empty(), Seq::<Seq<u8>>::empty())
}

/// The arguments as sequences of bytes.
pub open spec fn byte_views(arguments: Seq<Vec<u8>>) -> Seq<Seq<u8>> {
    Seq::new(arguments.len(), |i: int| arguments[i]@)
}

/// Reads the arguments that a response file holds.
pub fn split_arguments(contents: &[u8]) -> (r: Result<Vec<Vec<u8>>, StartupError>)
    ensures
        match arguments_of(contents@) {
            Ok(arguments) => r matches Ok(found) && byte_views(found@) == arguments,
            Err(e) => r matches Err(f) && f == e,
        },
{
    let mut done: Vec<Vec<u8>> = Vec::new();
    let mut current: Vec<u8> = Vec::new();
    let mut in_argument = false;
    let mut quoted = false;
    let mut i: usize = 0;
    assert(byte_views(done@) =~= Seq::<Seq<u8>>::empty());
    while i < contents.len()
        invariant
            i <= contents@.len(),
            !in_argument ==> !quoted && current@.len() == 0,
            arguments_of(contents@) == arguments_from(
                contents@,
                i as int,
                in_argument,
                quoted,
                current@,
                byte_views(done@),
            ),
        decreases contents@.len() - i,
    {
        let b: u8 = contents[i];
        assert(!in_argument ==> current@ =~= Seq::<u8>::empty());
        if !quoted && (b == 0x20 || b == 0x09 || b == 0x0a || b == 0x0c || b == 0x0d) {
            if in_argument {
                let ghost before = byte_views(done@);
                let ghost ended = current@;
                done.push(current);
                assert(byte_views(done@) =~= before.push(ended));
                current = Vec::new();
                in_argument = false;
            }
        } else if b == 0x22 {
            in_argument = true;
            quoted = !quoted;
        } else {
            in_argument = true;
            current.push(b);
        }
        i = i + 1;
    }
    if quoted {
        return Err(StartupError::RunawayQuote);
    }
    if in_argument {
        let ghost before = byte_views(done@);
        let ghost ended = current@;
        done.push(current);
        assert(byte_views(done@) =~= before.push(ended));
    }
    Ok(done)
}

/// `String::from_utf8` of the standard library: the text that the bytes
/// encode in UTF-8, or `None` where they encode no text.
#[verifier::external_body]
fn string_from_utf8(bytes: Vec<u8>) -> (r: Option<String>)
    ensures
        r is Some <==> valid_utf8(bytes@),
        r matches Some(s) ==> encode_utf8(s@) == bytes@,
{
    String::from_utf8(bytes).ok()
}

/// The arguments as texts, where each of them is a text.
pub open spec fn decoded(arguments: Seq<Seq<u8>>) -> Result<Seq<Seq<char>>, StartupError> {
    if forall|i: int| 0 <= i < arguments.len() ==> valid_utf8(#[trigger] arguments[i]) {
        Ok(Seq::new(arguments.len(), |i: int| decode_utf8(arguments[i])))
    } else {
        Err(StartupError::InvalidResponseText)
    }
}

/// Reads arguments as texts.
pub fn decode_arguments(arguments: Vec<Vec<u8>>) -> (r: Result<Vec<String>, StartupError>)
    ensures
        match decoded(byte_views(arguments@)) {
            Ok(found) => r matches Ok(list) && texts(list@) == found,
            Err(e) => r matches Err(f) && f == e,
        },
{
    let ghost all = byte_views(arguments@);
    let mut list: Vec<String> = Vec::new();
    let mut pending = arguments;
    let mut rest: Vec<Vec<u8>> = Vec::new();
    // The arguments are taken from the end, so that each can be moved out.
    while pending.len() > 0
        invariant
            pending@.len() + rest@.len() == all.len(),
            forall|k: int| 0 <= k < pending@.len() ==> pending@[k]@ == all[k],
            forall|k: int|
                0 <= k < rest@.len() ==> (#[trigger] rest@[k])@ == all[all.len() - 1 - k],
        decreases pending@.len(),
    {
        match pending.pop() {
            Some(last) => {
                rest.push(last);
            },
            None => {},
        }
    }
    while rest.len() > 0
        invariant
            all == byte_views(arguments@),
            list@.len() + rest@.len() == all.len(),
            forall|k: int|
                0 <= k < rest@.len() ==> (#[trigger] rest@[k])@ == all[all.len() - 1 - k],
            forall|k: int| 0 <= k < list@.len() ==> valid_utf8(#[trigger] all[k]),
            forall|k: int| 0 <= k < list@.len() ==> (#[trigger] list@[k])@ == decode_utf8(all[k]),
        decreases rest@.len(),
    {
        let ghost at = list@.len() as int;
        match rest.pop() {
            Some(next) => {
                assert(next@ == all[at]);
                match string_from_utf8(next) {
                    Some(text) => {
                        proof {
                            encode_utf8_decode_utf8(text@);
                        }
                        list.push(text);
                    },
                    None => {
                        assert(!valid_utf8(all[at]));
                        assert(decoded(all) is Err);
                        return Err(StartupError::InvalidResponseText);
                    },
                }
            },
            None => {},
        }
    }
    assert(texts(list@) =~= Seq::new(all.len(), |i: int| decode_utf8(all[i])));
    Ok(list)
}

/// Whether an argument names a response file: it begins with `@`.
pub open spec fn names_response_file(arg: Seq<char>) -> bool {
    text_begins_with_byte(arg, 0x40)
}

/// The index of the first argument from `from` on that names a response
/// file.
pub open spec fn first_response_from(args: Seq<String>, from: int) -> Option<int>
    decreases args.len() - from,
{
    if from >= args.len() {
        None
    } else if names_response_file(args[from]@) {
        Some(from)
    } else {
        first_response_from(args, from + 1)
    }
}

/// Finds the first argument that names a response file.
pub fn find_response_arg(args: &Vec<String>) -> (r: Option<usize>)
    ensures
        r is Some <==> first_response_from(args@, 0) is Some,
        r matches Some(i) ==> first_response_from(args@, 0) == Some(i as int) && i < args@.len(),
{
    let mut i: usize = 0;
    while i < args.len()
        invariant
            i <= args@.len(),
            first_response_from(args@, 0) == first_response_from(args@, i as int),
        decreases args@.len() - i,
    {
        if str_begins_with_byte(args[i].as_str(), 0x40) {
            return Some(i);
        }
        i = i + 1;
    }
    None
}

/// The command line with the argument at `index` replaced by the
/// arguments `found` of its response file: the name of the program,
/// what the file holds, and what follows the argument. What stood
/// between the name of the program and the argument is dropped. An
/// empty file only takes the argument away.
pub open spec fn expanded(
    args: Seq<Seq<char>>,
    index: int,
    contents: Seq<u8>,
    found: Seq<Seq<char>>,
) -> Seq<Seq<char>> {
    if contents.len() == 0 {
        args.remove(index)
    } else {
        args.subrange(0, 1) + found + args.subrange(index + 1, args.len() as int)
    }
}

/// Replaces the argument at `index` by the arguments of its response
/// file, of which `contents` are the bytes. Where there is no argument
/// at `index` the command line stays as it is.
pub fn expand_response_file(args: &Vec<String>, index: usize, contents: &[u8]) -> (r: Result<
    Vec<String>,
    StartupError,
>)
    ensures
        index >= args@.len() ==> (r matches Ok(list) && texts(list@) == texts(args@)),
        index < args@.len() && contents@.len() == 0 ==> (r matches Ok(list) && texts(list@)
            == texts(args@).remove(index as int)),
        index < args@.len() && contents@.len() > 0 ==> match arguments_of(contents@) {
            Err(e) => r matches Err(f) && f == e,
            Ok(arguments) => match decoded(arguments) {
                Err(e) => r matches Err(f) && f == e,
                Ok(found) => r matches Ok(list) && texts(list@) == expanded(
                    texts(args@),
                    index as int,
                    contents@,
                    found,
                ),
            },
        },
{
    let mut list: Vec<String> = Vec::new();
    if index >= args.len() {
        let mut i: usize = 0;
        while i < args.len()
            invariant
                i <= args@.len(),
                texts(list@) == texts(args@).subrange(0, i as int),
            decreases args@.len() - i,
        {
            let ghost before = texts(list@);
            list.push(args[i].clone());
            assert(texts(list@) =~= before.push(args@[i as int]@));
            assert(texts(args@).subrange(0, i + 1) =~= texts(args@).subrange(0, i as int).push(
                args@[i as int]@,
            ));
            i = i + 1;
        }
        assert(texts(args@).subrange(0, i as int) =~= texts(args@));
        return Ok(list);
    }
    if contents.len() == 0 {
        let mut i: usize = 0;
        while i < args.len()
            invariant
                i <= args@.len(),
                index < args@.len(),
                list@.len() == if i <= index {
                    i as int
                } else {
                    i - 1
                },
                forall|k: int|
                    0 <= k < list@.len() ==> (#[trigger] list@[k])@ == texts(args@).remove(
                        index as int,
                    )[k],
            decreases args@.len() - i,
        {
            if i != index {
                list.push(args[i].clone());
            }
            i = i + 1;
        }
        assert(texts(list@) =~= texts(args@).remove(index as int));
        return Ok(list);
    }
    let found = match split_arguments(contents) {
        Ok(arguments) => match decode_arguments(arguments) {
            Ok(found) => found,
            Err(e) => {
                return Err(e);
            },
        },
        Err(e) => {
            return Err(e);
        },
    };
    list.push(args[0].clone());
    let mut k: usize = 0;
    while k < found.len()
        invariant
            k <= found@.len(),
            0 < args@.len(),
            texts(list@) == texts(args@).subrange(0, 1) + texts(found@).subrange(0, k as int),
        decreases found@.len() - k,
    {
        let ghost before = texts(list@);
        list.push(found[k].clone());
        assert(texts(list@) =~= before.push(found@[k as int]@));
        assert(texts(found@).subrange(0, k + 1) =~= texts(found@).subrange(0, k as int).push(
            found@[k as int]@,
        ));
        k = k + 1;
    }
    assert(texts(found@).subrange(0, k as int) =~= texts(found@));
    let ghost head = texts(list@);
    let mut i: usize = index + 1;
    while i < args.len()
        invariant
            index < i <= args@.len(),
            texts(list@) == head + texts(args@).subrange(index + 1, i as int),
        decreases args@.len() - i,
    {
        let ghost before = texts(list@);
        list.push(args[i].clone());
        assert(texts(list@) =~= before.push(args@[i as int]@));
        assert(texts(args@).subrange(index + 1, i + 1) =~= texts(args@).subrange(
            index + 1,
            i as int,
        ).push(args@[i as int]@));
        i = i + 1;
    }
    Ok(list)
}

/// The name of the response file that an argument names: the argument
/// without its first byte, where that is `@`, with `.rsp` behind it.
pub open spec fn response_file_of(arg: Seq<char>) -> Seq<char> {
    if names_response_file(arg) {
        decode_utf8(encode_utf8(arg).subrange(1, encode_utf8(arg).len() as int)) + ".rsp"@
    } else {
        arg + ".rsp"@
    }
}

/// The name of the response file that an argument names.
pub fn response_file_name(arg: &str) -> (r: String)
    ensures
        r@ == response_file_of(arg@),
{
    let name: &str = if str_begins_with_byte(arg, 0x40) {
        proof {
            // The byte `@` is a character by itself, so that the next
            // character begins behind it.
            encode_utf8_valid_utf8(arg@);
            reveal_with_fuel(is_char_boundary, 2);
        }
        let (_, rest) = arg.split_at(1);
        proof {
            encode_utf8_decode_utf8(rest@);
        }
        rest
    } else {
        arg
    };
    let mut r = name.to_owned();
    r.append(".rsp");
    r
}

} // verus!
