//! The encoding of payloads. An entry that was read carries its payload as
//! text: three bytes as four letters out of sixty-four, the last letters
//! replaced by `=` where the payload does not end on a multiple of three.
//! Before use the text is turned back into bytes.

use vstd::prelude::*;
use vstd::slice::*;
use vstd::string::*;

verus! {

/// The number that a letter of the encoding stands for, if it is one.
pub open spec fn sextet(letter: u8) -> Option<u8> {
    if 65 <= letter <= 90 {
        Some((letter - 65) as u8)
    } else if 97 <= letter <= 122 {
        Some((letter - 71) as u8)
    } else if 48 <= letter <= 57 {
        Some((letter + 4) as u8)
    } else if letter == 43 {
        Some(62)
    } else if letter == 47 {
        Some(63)
    } else {
        None
    }
}

/// The letter that stands for a number below sixty-four.
pub open spec fn letter(number: u8) -> u8 {
    if number < 26 {
        (number + 65) as u8
    } else if number < 52 {
        (number + 71) as u8
    } else if number < 62 {
        (number - 4) as u8
    } else if number == 62 {
        43
    } else {
        47
    }
}

/// The letter that fills up the last group.
pub open spec fn pad() -> u8 {
    61
}

/// The bytes that a group of four letters stands for. Only the last group of
/// a text may end in one or two fill letters, and the bits that it leaves
/// unused are zero.
#[verifier::opaque]
pub open spec fn decoded_group(group: Seq<u8>, last: bool) -> Option<Seq<u8>> {
    match (sextet(group[0]), sextet(group[1])) {
        (Some(a), Some(b)) => {
            let first = (a * 4 + b / 16) as u8;
            if last && group[2] == pad() && group[3] == pad() {
                if b % 16 == 0 {
                    Some(seq![first])
                } else {
                    None
                }
            } else {
                match sextet(group[2]) {
                    Some(c) => {
                        let second = ((b % 16) * 16 + c / 4) as u8;
                        if last && group[3] == pad() {
                            if c % 4 == 0 {
                                Some(seq![first, second])
                            } else {
                                None
                            }
                        } else {
                            match sextet(group[3]) {
                                Some(d) => Some(seq![first, second, ((c % 4) * 64 + d) as u8]),
                                None => None,
                            }
                        }
                    },
                    None => None,
                }
            }
        },
        _ => None,
    }
}

/// The payload that a text stands for: the bytes of its groups, one after
/// the other. A text whose length is no multiple of four, or that holds a
/// group that stands for nothing, is no payload.
pub open spec fn decoded(text: Seq<u8>) -> Option<Seq<u8>>
    decreases text.len(),
{
    if text.len() == 0 {
        Some(Seq::empty())
    } else if text.len() < 4 {
        None
    } else {
        match (decoded_group(text.take(4), text.len() == 4), decoded(text.skip(4))) {
            (Some(head), Some(tail)) => Some(head + tail),
            _ => None,
        }
    }
}

/// The letters that stand for one, two or three bytes.
#[verifier::opaque]
pub open spec fn encoded_group(bytes: Seq<u8>) -> Seq<u8> {
    if bytes.len() == 1 {
        seq![letter(bytes[0] / 4), letter(((bytes[0] % 4) * 16) as u8), pad(), pad()]
    } else if bytes.len() == 2 {
        seq![
            letter(bytes[0] / 4),
            letter(((bytes[0] % 4) * 16 + bytes[1] / 16) as u8),
            letter(((bytes[1] % 16) * 4) as u8),
            pad(),
        ]
    } else {
        seq![
            letter(bytes[0] / 4),
            letter(((bytes[0] % 4) * 16 + bytes[1] / 16) as u8),
            letter(((bytes[1] % 16) * 4 + bytes[2] / 64) as u8),
            letter(bytes[2] % 64),
        ]
    }
}

/// The text that stands for a payload: the letters of its bytes, three by
/// three.
pub open spec fn encoded(bytes: Seq<u8>) -> Seq<u8>
    decreases bytes.len(),
{
    if bytes.len() == 0 {
        Seq::empty()
    } else if bytes.len() < 3 {
        encoded_group(bytes)
    } else {
        encoded_group(bytes.take(3)) + encoded(bytes.skip(3))
    }
}

/// A letter stands for the number that it was chosen for, and is no fill
/// letter.
pub proof fn lemma_letter(number: u8)
    requires
        number < 64,
    ensures
        sextet(letter(number)) == Some(number),
        letter(number) != pad(),
{
}

proof fn lemma_group_of_one(x: u8)
    ensures
        decoded_group(encoded_group(seq![x]), true) == Some(seq![x]),
        encoded_group(seq![x]).len() == 4,
{
    reveal(decoded_group);
    reveal(encoded_group);
    let a = (x / 4) as u8;
    let b = ((x % 4) * 16) as u8;
    lemma_letter(a);
    lemma_letter(b);
}

proof fn lemma_group_of_two(x: u8, y: u8)
    ensures
        decoded_group(encoded_group(seq![x, y]), true) == Some(seq![x, y]),
        encoded_group(seq![x, y]).len() == 4,
{
    reveal(decoded_group);
    reveal(encoded_group);
    let a = (x / 4) as u8;
    let b = ((x % 4) * 16 + y / 16) as u8;
    let c = ((y % 16) * 4) as u8;
    lemma_letter(a);
    lemma_letter(b);
    lemma_letter(c);
}

proof fn lemma_group_of_three(x: u8, y: u8, z: u8, last: bool)
    ensures
        decoded_group(encoded_group(seq![x, y, z]), last) == Some(seq![x, y, z]),
        encoded_group(seq![x, y, z]).len() == 4,
{
    reveal(decoded_group);
    reveal(encoded_group);
    let a = (x / 4) as u8;
    let b = ((x % 4) * 16 + y / 16) as u8;
    let c = ((y % 16) * 4 + z / 64) as u8;
    let d = (z % 64) as u8;
    lemma_letter(a);
    lemma_letter(b);
    lemma_letter(c);
    lemma_letter(d);
}

/// Decoding what was encoded gives back the payload, whatever the payload.
pub proof fn lemma_decoded_encoded(bytes: Seq<u8>)
    ensures
        decoded(encoded(bytes)) == Some(bytes),
    decreases bytes.len(),
{
    let text = encoded(bytes);
    if bytes.len() == 0 {
    } else if bytes.len() < 3 {
        if bytes.len() == 1 {
            lemma_group_of_one(bytes[0]);
            assert(bytes =~= seq![bytes[0]]);
        } else {
            lemma_group_of_two(bytes[0], bytes[1]);
            assert(bytes =~= seq![bytes[0], bytes[1]]);
        }
        assert(text.take(4) =~= text);
        assert(decoded(text.skip(4)) == Some(Seq::<u8>::empty()));
    } else {
        let rest = bytes.skip(3);
        let front = bytes.take(3);
        lemma_decoded_encoded(rest);
        lemma_group_of_three(bytes[0], bytes[1], bytes[2], text.len() == 4);
        assert(front =~= seq![bytes[0], bytes[1], bytes[2]]);
        let head = encoded_group(front);
        assert(text.take(4) =~= head);
        assert(text.skip(4) =~= encoded(rest));
    }
}

fn number_of(letter: u8) -> (number: Option<u8>)
    ensures
        number == sextet(letter),
{
    if 65 <= letter && letter <= 90 {
        Some(letter - 65)
    } else if 97 <= letter && letter <= 122 {
        Some(letter - 71)
    } else if 48 <= letter && letter <= 57 {
        Some(letter + 4)
    } else if letter == 43 {
        Some(62)
    } else if letter == 47 {
        Some(63)
    } else {
        None
    }
}

/// Whether the bytes in `out` followed by what `rest` stands for are what
/// `text` stands for.
spec fn carries_on(text: Seq<u8>, out: Seq<u8>, rest: Seq<u8>) -> bool {
    decoded(text) == match decoded(rest) {
        Some(tail) => Some(out + tail),
        None => None,
    }
}

/// Turns the text that an entry carries into the payload that it stands
/// for. Nothing is returned where the text stands for no payload.
pub fn decode_value(text: &str) -> (payload: Option<Vec<u8>>)
    ensures
        match decoded(text.spec_bytes()) {
            Some(bytes) => payload matches Some(got) && got@ == bytes,
            None => payload is None,
        },
{
    proof {
        reveal(decoded_group);
    }
    let letters = text.as_bytes();
    let n = letters.len();
    let ghost all = letters@;
    let mut out: Vec<u8> = Vec::new();
    let mut i: usize = 0;
    proof {
        assert(all.skip(0) =~= all);
    }
    while i < n
        invariant
            i <= n,
            n == letters@.len(),
            all == letters@,
            all == text.spec_bytes(),
            i % 4 == 0,
            carries_on(all, out@, all.skip(i as int)),
        decreases n - i,
    {
        proof {
            reveal(decoded_group);
        }
        let ghost rest = all.skip(i as int);
        if n - i < 4 {
            return None;
        }
        let ghost group = rest.take(4);
        proof {
            assert(rest.skip(4) =~= all.skip(i + 4));
        }
        let last = n - i == 4;
        let a = match number_of(letters[i]) {
            Some(a) => a,
            None => {
                return None;
            },
        };
        let b = match number_of(letters[i + 1]) {
            Some(b) => b,
            None => {
                return None;
            },
        };
        let ghost before = out@;
        out.push(a * 4 + b / 16);
        if last && letters[i + 2] == 61 && letters[i + 3] == 61 {
            if b % 16 != 0 {
                return None;
            }
        } else {
            let c = match number_of(letters[i + 2]) {
                Some(c) => c,
                None => {
                    return None;
                },
            };
            out.push((b % 16) * 16 + c / 4);
            if last && letters[i + 3] == 61 {
                if c % 4 != 0 {
                    return None;
                }
            } else {
                let d = match number_of(letters[i + 3]) {
                    Some(d) => d,
                    None => {
                        return None;
                    },
                };
                out.push((c % 4) * 64 + d);
            }
        }
        proof {
            let head = decoded_group(group, last)->0;
            match decoded(all.skip(i + 4)) {
                Some(tail) => {
                    assert(out@ + tail =~= before + (head + tail));
                },
                None => {},
            }
        }
        i = i + 4;
    }
    Some(out)
}

} // verus!
