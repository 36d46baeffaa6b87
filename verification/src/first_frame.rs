//! The first-frame timestamp file the recorder writes (`-write-first-frame-ts`).

use vstd::prelude::*;
use crate::decimal::{dec, parse_unsigned};
use crate::text::{is_white, lower, words};

verus! {

#[derive(Clone, Copy, Debug, PartialEq, Eq, Structural)]
pub struct FirstFrameTimestamp {
    pub monotonic_us: u64,
    pub realtime_us: u64,
}

#[derive(Clone, Copy, Debug, PartialEq, Eq, Structural)]
pub enum TimestampError {
    MissingMonotonic,
    MissingRealtime,
    InvalidMonotonic,
    InvalidRealtime,
    ExtraTokens,
}

pub open spec fn is_header(token: Seq<char>) -> bool {
    lower(token) == "monotonic_microsec"@ || lower(token) == "realtime_microsec"@
}

/// How many header tokens (at most two) open the document.
pub open spec fn header_count(tokens: Seq<Seq<char>>) -> int {
    if tokens.len() > 0 && is_header(tokens[0]) {
        if tokens.len() > 1 && is_header(tokens[1]) {
            2
        } else {
            1
        }
    } else {
        0
    }
}

/// The timestamp document read as two unsigned integers after an optional
/// header row; trailing white space is allowed, any other token is not.
pub open spec fn timestamp_of(source: Seq<char>) -> Result<FirstFrameTimestamp, TimestampError> {
    let tokens = words(source);
    let rest = tokens.skip(header_count(tokens));
    if rest.len() == 0 {
        Err(TimestampError::MissingMonotonic)
    } else if parse_unsigned(rest[0], u64::MAX as nat) is None {
        Err(TimestampError::InvalidMonotonic)
    } else if rest.len() == 1 {
        Err(TimestampError::MissingRealtime)
    } else if parse_unsigned(rest[1], u64::MAX as nat) is None {
        Err(TimestampError::InvalidRealtime)
    } else if rest.len() > 2 {
        Err(TimestampError::ExtraTokens)
    } else {
        Ok(
            FirstFrameTimestamp {
                monotonic_us: parse_unsigned(rest[0], u64::MAX as nat)->0 as u64,
                realtime_us: parse_unsigned(rest[1], u64::MAX as nat)->0 as u64,
            },
        )
    }
}

pub fn is_header_token(token: &str) -> (b: bool)
    ensures
        b == is_header(token@),
{
    let v = crate::text::chars_of(token);
    let low = crate::text::lower_chars(v.as_slice());
    let a = crate::text::chars_of("monotonic_microsec");
    let b = crate::text::chars_of("realtime_microsec");
    let first = low.len() == a.len() && crate::text::chars_start_with(low.as_slice(), a.as_slice());
    let second = low.len() == b.len() && crate::text::chars_start_with(low.as_slice(), b.as_slice());
    proof {
        if low@.len() == a@.len() {
            assert(low@.take(a@.len() as int) =~= low@);
        }
        if low@.len() == b@.len() {
            assert(low@.take(b@.len() as int) =~= low@);
        }
    }
    first || second
}

/// Parse the two-integer timestamp document.
///
/// Version 6 of the recorder writes a header row (`monotonic_microsec` /
/// `realtime_microsec`) before the integer pair. A header with no numbers yet
/// is incomplete, not malformed.
pub fn parse_first_frame_timestamp(source: &str) -> (r: Result<FirstFrameTimestamp, TimestampError>)
    ensures
        r == timestamp_of(source@),
{
    let v = crate::text::chars_of(source);
    let tokens = crate::text::split_words(v.as_slice());
    let ghost t = crate::text::texts(tokens@);
    assert(t.len() == tokens@.len());
    let mut k: usize = 0;
    if tokens.len() > 0 && is_header_token(tokens[0].as_str()) {
        k = 1;
        if tokens.len() > 1 && is_header_token(tokens[1].as_str()) {
            k = 2;
        }
    }
    assert(k == header_count(t));
    let ghost rest = t.skip(k as int);
    if tokens.len() <= k {
        return Err(TimestampError::MissingMonotonic);
    }
    let first = crate::text::chars_of(tokens[k].as_str());
    assert(first@ == rest[0]);
    let monotonic = match crate::decimal::parse_u64(first.as_slice()) {
        Some(x) => x,
        None => return Err(TimestampError::InvalidMonotonic),
    };
    if tokens.len() <= k + 1 {
        return Err(TimestampError::MissingRealtime);
    }
    let second = crate::text::chars_of(tokens[k + 1].as_str());
    assert(second@ == rest[1]);
    let realtime = match crate::decimal::parse_u64(second.as_slice()) {
        Some(x) => x,
        None => return Err(TimestampError::InvalidRealtime),
    };
    if tokens.len() > k + 2 {
        return Err(TimestampError::ExtraTokens);
    }
    Ok(FirstFrameTimestamp { monotonic_us: monotonic, realtime_us: realtime })
}

pub open spec fn timestamp_message(e: TimestampError) -> Seq<char> {
    match e {
        TimestampError::MissingMonotonic => "first-frame timestamp is missing the monotonic value"@,
        TimestampError::MissingRealtime => "first-frame timestamp is missing the realtime value"@,
        TimestampError::InvalidMonotonic => "first-frame monotonic timestamp is not an integer"@,
        TimestampError::InvalidRealtime => "first-frame realtime timestamp is not an integer"@,
        TimestampError::ExtraTokens => "first-frame timestamp has extra tokens"@,
    }
}

impl TimestampError {
    /// The error's description.
    pub fn message(&self) -> (s: &'static str)
        ensures
            s@ == timestamp_message(*self),
    {
        match self {
            TimestampError::MissingMonotonic => "first-frame timestamp is missing the monotonic value",
            TimestampError::MissingRealtime => "first-frame timestamp is missing the realtime value",
            TimestampError::InvalidMonotonic => "first-frame monotonic timestamp is not an integer",
            TimestampError::InvalidRealtime => "first-frame realtime timestamp is not an integer",
            TimestampError::ExtraTokens => "first-frame timestamp has extra tokens",
        }
    }
}

/// The decimal text of a number is one word that reads as that number and
/// is no header.
proof fn lemma_number_token(n: u64)
    ensures
        parse_unsigned(dec(n as nat), u64::MAX as nat) == Some(n as nat),
        !is_header(dec(n as nat)),
        forall|k: int| 0 <= k < dec(n as nat).len() ==> !is_white(#[trigger] dec(n as nat)[k]),
{
    let d = dec(n as nat);
    crate::decimal::lemma_dec_shape(n as nat);
    assert(crate::decimal::is_digit(d[0]));
    assert forall|k: int| 0 <= k < d.len() implies !is_white(#[trigger] d[k]) by {
        assert(crate::decimal::is_digit(d[k]));
    }
    reveal_strlit("monotonic_microsec");
    reveal_strlit("realtime_microsec");
    assert(lower(d)[0] == d[0]);
    assert(lower(d) != "monotonic_microsec"@) by {
        assert("monotonic_microsec"@[0] == 'm');
    }
    assert(lower(d) != "realtime_microsec"@) by {
        assert("realtime_microsec"@[0] == 'r');
    }
}

/// The recorder's header words are headers and hold no white space.
proof fn lemma_header_tokens()
    ensures
        is_header("monotonic_microsec"@),
        is_header("realtime_microsec"@),
        forall|k: int| 0 <= k < 18 ==> !is_white(#[trigger] "monotonic_microsec"@[k]),
        forall|k: int| 0 <= k < 17 ==> !is_white(#[trigger] "realtime_microsec"@[k]),
        "monotonic_microsec"@.len() == 18,
        "realtime_microsec"@.len() == 17,
{
    reveal_strlit("monotonic_microsec");
    reveal_strlit("realtime_microsec");
    assert(lower("monotonic_microsec"@) =~= "monotonic_microsec"@);
    assert(lower("realtime_microsec"@) =~= "realtime_microsec"@);
}

proof fn lemma_pair_words(a: u64, b: u64)
    ensures
        words(dec(a as nat) + " "@ + dec(b as nat)) == seq![dec(a as nat), dec(b as nat)],
{
    lemma_number_token(a);
    lemma_number_token(b);
    reveal_strlit(" ");
    let da = dec(a as nat);
    let db = dec(b as nat);
    let la = da.len() as int;
    let lb = db.len() as int;
    let s = da + " "@ + db;
    assert forall|k: int| 0 <= k < la implies !is_white(#[trigger] s[k]) by {
        assert(s[k] == da[k]);
    }
    assert forall|k: int| la + 1 <= k < la + 1 + lb implies !is_white(#[trigger] s[k]) by {
        assert(s[k] == db[k - la - 1]);
    }
    assert(s[la] == ' ');
    crate::text::lemma_words_step(s, 0, 0, la);
    crate::text::lemma_words_step(s, la, la + 1, la + 1 + lb);
    crate::text::lemma_words_end(s, la + 1 + lb);
    assert(s.subrange(0, la) =~= da);
    assert(s.subrange(la + 1, la + 1 + lb) =~= db);
    assert(words(s) =~= seq![da, db]);
}

proof fn lemma_pair_text(a: u64, b: u64)
    ensures
        timestamp_of(dec(a as nat) + " "@ + dec(b as nat)) == Ok::<FirstFrameTimestamp, TimestampError>(
            FirstFrameTimestamp { monotonic_us: a, realtime_us: b },
        ),
{
    lemma_number_token(a);
    lemma_number_token(b);
    lemma_pair_words(a, b);
    let t = seq![dec(a as nat), dec(b as nat)];
    assert(header_count(t) == 0);
    assert(t.skip(0) =~= t);
}

proof fn lemma_extra_text(a: u64, b: u64)
    ensures
        timestamp_of(dec(a as nat) + " "@ + dec(b as nat) + " x"@) == Err::<FirstFrameTimestamp, TimestampError>(
            TimestampError::ExtraTokens,
        ),
{
    lemma_number_token(a);
    lemma_number_token(b);
    reveal_strlit(" ");
    reveal_strlit(" x");
    let da = dec(a as nat);
    let db = dec(b as nat);
    let la = da.len() as int;
    let lb = db.len() as int;
    let s = da + " "@ + db + " x"@;
    assert forall|k: int| 0 <= k < la implies !is_white(#[trigger] s[k]) by {
        assert(s[k] == da[k]);
    }
    assert forall|k: int| la + 1 <= k < la + 1 + lb implies !is_white(#[trigger] s[k]) by {
        assert(s[k] == db[k - la - 1]);
    }
    assert(s[la + 1 + lb] == ' ');
    assert(s[la + 2 + lb] == 'x');
    crate::text::lemma_words_step(s, 0, 0, la);
    crate::text::lemma_words_step(s, la, la + 1, la + 1 + lb);
    crate::text::lemma_words_step(s, la + 1 + lb, la + 2 + lb, la + 3 + lb);
    crate::text::lemma_words_end(s, la + 3 + lb);
    assert(s.subrange(0, la) =~= da);
    assert(s.subrange(la + 1, la + 1 + lb) =~= db);
    let t = words(s);
    assert(t.len() == 3);
    assert(t[0] == da);
    assert(t[1] == db);
    assert(t.skip(0) =~= t);
}

proof fn lemma_lone_text(a: u64)
    ensures
        timestamp_of(dec(a as nat) + "\n"@) == Err::<FirstFrameTimestamp, TimestampError>(
            TimestampError::MissingRealtime,
        ),
{
    lemma_number_token(a);
    reveal_strlit("\n");
    let da = dec(a as nat);
    let la = da.len() as int;
    let s = da + "\n"@;
    assert forall|k: int| 0 <= k < la implies !is_white(#[trigger] s[k]) by {
        assert(s[k] == da[k]);
    }
    crate::text::lemma_words_step(s, 0, 0, la);
    crate::text::lemma_words_end(s, la);
    assert(s.subrange(0, la) =~= da);
    assert(words(s) =~= seq![da]);
    assert(words(s).skip(0) =~= words(s));
}

proof fn lemma_header_row()
    ensures
        "monotonic_microsec\trealtime_microsec\n"@ == "monotonic_microsec"@ + "\t"@ + "realtime_microsec"@
            + "\n"@,
{
    reveal_strlit("monotonic_microsec\trealtime_microsec\n");
    reveal_strlit("monotonic_microsec");
    reveal_strlit("realtime_microsec");
    reveal_strlit("\t");
    reveal_strlit("\n");
    assert("monotonic_microsec\trealtime_microsec\n"@ =~= "monotonic_microsec"@ + "\t"@
        + "realtime_microsec"@ + "\n"@);
}

proof fn lemma_headered_words(a: u64, b: u64)
    ensures
        words("monotonic_microsec\trealtime_microsec\n"@ + dec(a as nat) + "\t"@ + dec(b as nat) + "\n"@)
            == seq!["monotonic_microsec"@, "realtime_microsec"@, dec(a as nat), dec(b as nat)],
{
    lemma_number_token(a);
    lemma_number_token(b);
    lemma_header_tokens();
    lemma_header_row();
    reveal_strlit("\t");
    reveal_strlit("\n");
    let da = dec(a as nat);
    let db = dec(b as nat);
    let h1 = "monotonic_microsec"@;
    let h2 = "realtime_microsec"@;
    let tab = "\t"@;
    let nl = "\n"@;
    let empty = Seq::<char>::empty();
    crate::text::lemma_words_end(empty, 0);
    let t3 = db + nl + empty;
    crate::text::lemma_words_prepend(db, nl, empty);
    let t2 = da + tab + t3;
    crate::text::lemma_words_prepend(da, tab, t3);
    let t1 = h2 + nl + t2;
    crate::text::lemma_words_prepend(h2, nl, t2);
    let t0 = h1 + tab + t1;
    crate::text::lemma_words_prepend(h1, tab, t1);
    assert(t0 =~= "monotonic_microsec\trealtime_microsec\n"@ + da + tab + db + nl);
    assert(words(t0) =~= seq![h1, h2, da, db]);
}

proof fn lemma_headered_text(a: u64, b: u64)
    ensures
        timestamp_of(
            "monotonic_microsec\trealtime_microsec\n"@ + dec(a as nat) + "\t"@ + dec(b as nat) + "\n"@,
        ) == Ok::<FirstFrameTimestamp, TimestampError>(FirstFrameTimestamp { monotonic_us: a, realtime_us: b }),
{
    lemma_number_token(a);
    lemma_number_token(b);
    lemma_header_tokens();
    lemma_headered_words(a, b);
    let t = seq!["monotonic_microsec"@, "realtime_microsec"@, dec(a as nat), dec(b as nat)];
    assert(header_count(t) == 2);
    assert(t.skip(2) =~= seq![dec(a as nat), dec(b as nat)]);
}

/// Two numbers written in decimal, one space apart, read back as the
/// timestamp they give; so does the recorder's headered, tab-separated
/// form; a third word is an extra token; a lone number lacks the realtime value.
pub proof fn lemma_timestamp_text_reads_back(a: u64, b: u64)
    ensures
        timestamp_of(dec(a as nat) + " "@ + dec(b as nat)) == Ok::<FirstFrameTimestamp, TimestampError>(
            FirstFrameTimestamp { monotonic_us: a, realtime_us: b },
        ),
        timestamp_of(
            "monotonic_microsec\trealtime_microsec\n"@ + dec(a as nat) + "\t"@ + dec(b as nat) + "\n"@,
        ) == Ok::<FirstFrameTimestamp, TimestampError>(FirstFrameTimestamp { monotonic_us: a, realtime_us: b }),
        timestamp_of(dec(a as nat) + " "@ + dec(b as nat) + " x"@) == Err::<FirstFrameTimestamp, TimestampError>(
            TimestampError::ExtraTokens,
        ),
        timestamp_of(dec(a as nat) + "\n"@) == Err::<FirstFrameTimestamp, TimestampError>(
            TimestampError::MissingRealtime,
        ),
{
    lemma_pair_text(a, b);
    lemma_headered_text(a, b);
    lemma_extra_text(a, b);
    lemma_lone_text(a);
}

} // verus!
