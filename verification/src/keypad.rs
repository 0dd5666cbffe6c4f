//! The pure decision logic of the keypad scanner: decoding a sampled row
//! nibble into a key of the 4x4 matrix, and the debounce filter that reports
//! a key at most once per sustained physical press. The bus traffic that
//! drives a column low and samples the rows stays outside; it hands this
//! module the raw samples.

use vstd::prelude::*;

verus! {

/// The key legend of the 4x4 matrix, by row and column.
pub open spec fn key_at_spec(row: int, col: int) -> char {
    if row == 0 {
        if col == 0 {
            'd'
        } else if col == 1 {
            '#'
        } else if col == 2 {
            '0'
        } else {
            '*'
        }
    } else if row == 1 {
        if col == 0 {
            'c'
        } else if col == 1 {
            '9'
        } else if col == 2 {
            '8'
        } else {
            '7'
        }
    } else if row == 2 {
        if col == 0 {
            'b'
        } else if col == 1 {
            '6'
        } else if col == 2 {
            '5'
        } else {
            '4'
        }
    } else {
        if col == 0 {
            'a'
        } else if col == 1 {
            '3'
        } else if col == 2 {
            '2'
        } else {
            '1'
        }
    }
}

/// The key at a row/column crossing of the matrix.
pub fn key_at(row: u8, col: u8) -> (c: char)
    requires
        row < 4,
        col < 4,
    ensures
        c == key_at_spec(row as int, col as int),
{
    if row == 0 {
        if col == 0 {
            'd'
        } else if col == 1 {
            '#'
        } else if col == 2 {
            '0'
        } else {
            '*'
        }
    } else if row == 1 {
        if col == 0 {
            'c'
        } else if col == 1 {
            '9'
        } else if col == 2 {
            '8'
        } else {
            '7'
        }
    } else if row == 2 {
        if col == 0 {
            'b'
        } else if col == 1 {
            '6'
        } else if col == 2 {
            '5'
        } else {
            '4'
        }
    } else {
        if col == 0 {
            'a'
        } else if col == 1 {
            '3'
        } else if col == 2 {
            '2'
        } else {
            '1'
        }
    }
}

/// The bus byte that drives one column low while every other line stays
/// high.
pub fn column_mask(col: u8) -> (mask: u8)
    requires
        col < 4,
    ensures
        mask == !(1u8 << ((col + 4) as u8)),
{
    !(1u8 << (col + 4))
}

/// The lowest row whose contact reads closed (bit low) in the sampled
/// nibble, if any.
pub open spec fn first_low_row_spec(rows: u8) -> Option<u8> {
    if rows & 1 == 0 {
        Some(0u8)
    } else if rows & 2 == 0 {
        Some(1u8)
    } else if rows & 4 == 0 {
        Some(2u8)
    } else if rows & 8 == 0 {
        Some(3u8)
    } else {
        None
    }
}

/// Decode a sampled row byte for one column: mask to the low nibble, find
/// the first closed contact, and look the key up in the legend. `None` when
/// every row reads open.
pub fn decode_scan(sample: u8, col: u8) -> (key: Option<char>)
    requires
        col < 4,
    ensures
        key matches Some(c) ==> first_low_row_spec(sample & 0x0F) matches Some(r) && c == key_at_spec(
            r as int,
            col as int,
        ),
        key is None ==> first_low_row_spec(sample & 0x0F) is None,
{
    let rows: u8 = sample & 0x0F;
    if rows & 1 == 0 {
        Some(key_at(0, col))
    } else if rows & 2 == 0 {
        Some(key_at(1, col))
    } else if rows & 4 == 0 {
        Some(key_at(2, col))
    } else if rows & 8 == 0 {
        Some(key_at(3, col))
    } else {
        None
    }
}

/// The debounce filter's state: which key the last sample showed pressed,
/// when it was first seen, and the configured debounce interval.
#[verifier::ext_equal]
pub ghost struct DebounceModel {
    pub last_key: Option<char>,
    pub last_press_ms: Option<u64>,
    pub debounce_ms: u64,
}

/// One debounce decision: a newly seen key is reported and remembered with
/// its press time; a key still held from the previous sample is never
/// reported again; an open scan clears the state immediately, so the next
/// press of the same key registers once more.
pub open spec fn debounce_step(s: DebounceModel, raw: Option<char>, now_ms: u64) -> (
    DebounceModel,
    Option<char>,
) {
    match raw {
        Option::None => (DebounceModel { last_key: None, last_press_ms: None, ..s }, None),
        Option::Some(k) => if s.last_key == Some(k) {
            (s, None)
        } else {
            (DebounceModel { last_key: Some(k), last_press_ms: Some(now_ms), ..s }, Some(k))
        },
    }
}

/// How many key events a run of raw samples of one held key produces.
pub open spec fn held_events(s: DebounceModel, k: char, times: Seq<u64>) -> nat
    decreases times.len(),
{
    if times.len() == 0 {
        0
    } else {
        let stepped = debounce_step(s, Some(k), times[0]);
        (if stepped.1 is Some {
            1nat
        } else {
            0nat
        }) + held_events(stepped.0, k, times.drop_first())
    }
}

/// The state after a run of raw samples of one held key.
pub open spec fn held_state(s: DebounceModel, k: char, times: Seq<u64>) -> DebounceModel
    decreases times.len(),
{
    if times.len() == 0 {
        s
    } else {
        held_state(debounce_step(s, Some(k), times[0]).0, k, times.drop_first())
    }
}

/// A key already registered as held yields no further event, however many
/// polls sample it.
pub proof fn lemma_debounce_silent_while_held(s: DebounceModel, k: char, times: Seq<u64>)
    requires
        s.last_key == Some(k),
    ensures
        held_events(s, k, times) == 0,
        held_state(s, k, times) == s,
    decreases times.len(),
{
    if times.len() > 0 {
        lemma_debounce_silent_while_held(s, k, times.drop_first());
    }
}

/// Law (debounce idempotence, sustained press): a key held continuously
/// across any number of polls produces at most one event, and exactly one
/// when the key was not already registered as held.
pub proof fn lemma_debounce_at_most_one(s: DebounceModel, k: char, times: Seq<u64>)
    ensures
        held_events(s, k, times) <= 1,
        s.last_key != Some(k) && times.len() > 0 ==> held_events(s, k, times) == 1,
    decreases times.len(),
{
    if times.len() > 0 {
        let stepped = debounce_step(s, Some(k), times[0]);
        if stepped.1 is Some {
            lemma_debounce_silent_while_held(stepped.0, k, times.drop_first());
        } else {
            lemma_debounce_at_most_one(stepped.0, k, times.drop_first());
        }
    }
}

/// Law (debounce idempotence, release and re-press): an open scan clears
/// the debounce state, and the next press of the same key is reported
/// exactly once more.
pub proof fn lemma_debounce_release_repress(s: DebounceModel, k: char, t_release: u64, t_press: u64)
    ensures
        debounce_step(s, None, t_release).1 is None,
        debounce_step(debounce_step(s, None, t_release).0, Some(k), t_press).1 == Some(k),
{
}

/// The debounce filter that stands between the raw matrix scan and the
/// event stream.
pub struct Debouncer {
    last_key: Option<char>,
    last_press_ms: Option<u64>,
    debounce_ms: u64,
}

impl View for Debouncer {
    type V = DebounceModel;

    closed spec fn view(&self) -> DebounceModel {
        DebounceModel {
            last_key: self.last_key,
            last_press_ms: self.last_press_ms,
            debounce_ms: self.debounce_ms,
        }
    }
}

impl Debouncer {
    /// A fresh filter with no key registered and the given debounce
    /// interval.
    pub fn new(debounce_ms: u64) -> (d: Debouncer)
        ensures
            d@ == (DebounceModel { last_key: None, last_press_ms: None, debounce_ms }),
    {
        Debouncer { last_key: None, last_press_ms: None, debounce_ms }
    }

    /// The same filter with another debounce interval.
    pub fn with_debounce_duration(self, debounce_ms: u64) -> (d: Debouncer)
        ensures
            d@ == (DebounceModel { debounce_ms, ..self@ }),
    {
        Debouncer { debounce_ms, ..self }
    }

    /// Filter one raw scan result: report a key at most once per sustained
    /// press.
    pub fn filter(&mut self, raw: Option<char>, now_ms: u64) -> (event: Option<char>)
        ensures
            (final(self)@, event) == debounce_step(old(self)@, raw, now_ms),
    {
        match raw {
            Option::None => {
                self.last_key = None;
                self.last_press_ms = None;
                None
            },
            Option::Some(k) => {
                let held = match self.last_key {
                    Option::Some(last) => last == k,
                    Option::None => false,
                };
                if held {
                    None
                } else {
                    self.last_key = Some(k);
                    self.last_press_ms = Some(now_ms);
                    Some(k)
                }
            },
        }
    }
}

} // verus!
