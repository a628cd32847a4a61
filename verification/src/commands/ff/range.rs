//! A line range as the user writes it: two numbers with a dash between them.

use vstd::prelude::*;
use vstd::string::*;

use crate::commands::error::CommandError;
use crate::number::{decimal, parse_number, read_number, write_number};
use crate::text::{chars_of, lemma_position_of_is, position_of};

verus! {

/// A range of lines, both ends included: the start is not behind the end.
pub struct Range {
    start: usize,
    end: usize,
}

/// What a text says when it is read as a range.
pub ghost enum RangeReading {
    /// It does not hold exactly one dash.
    Malformed,
    /// What stands before the dash is no number.
    BadStart(Seq<char>),
    /// What stands behind the dash is no number.
    BadEnd(Seq<char>),
    /// The start is behind the end.
    Reversed(nat, nat),
    /// A range from the first number to the second.
    Valid(nat, nat),
}

/// Reads a text as a range of numbers up to `limit`.
pub open spec fn read_range(text: Seq<char>, limit: nat) -> RangeReading {
    let dash = position_of(text, '-');
    if !(0 <= dash < text.len()) {
        RangeReading::Malformed
    } else {
        let before = text.subrange(0, dash);
        let behind = text.subrange(dash + 1, text.len() as int);
        if position_of(behind, '-') < behind.len() {
            RangeReading::Malformed
        } else {
            match parse_number(before, limit) {
                None => RangeReading::BadStart(before),
                Some(start) => match parse_number(behind, limit) {
                    None => RangeReading::BadEnd(behind),
                    Some(end) => if start > end {
                        RangeReading::Reversed(start, end)
                    } else {
                        RangeReading::Valid(start, end)
                    },
                },
            }
        }
    }
}

/// Whether `error` says what is wrong with `text` read as a range.
pub open spec fn range_error(text: Seq<char>, error: CommandError) -> bool {
    match read_range(text, usize::MAX as nat) {
        RangeReading::Malformed => error matches CommandError::ArgParse(message) && message@
            == "範囲 '"@ + text + "' が正しくありません。例: 1-10"@,
        RangeReading::BadStart(part) => error matches CommandError::ArgParse(message) && message@
            == "開始値 '"@ + part + "' が数値ではありません。"@,
        RangeReading::BadEnd(part) => error matches CommandError::ArgParse(message) && message@
            == "終了値 '"@ + part + "' が数値ではありません。"@,
        RangeReading::Reversed(start, end) => error matches CommandError::InvalidInput(message)
            && message@ == "開始値 '"@ + decimal(start) + "' は終了値 '"@ + decimal(end)
            + "' より大きくはできません。"@,
        RangeReading::Valid(_, _) => false,
    }
}

/// Whether `result` is what reading `text` as a range gives: the range, or
/// the error that says what is wrong with the text.
pub open spec fn reports(result: Result<Range, CommandError>, text: Seq<char>) -> bool {
    match result {
        Ok(range) => read_range(text, usize::MAX as nat) == RangeReading::Valid(
            range.spec_start(),
            range.spec_end(),
        ),
        Err(error) => range_error(text, error),
    }
}

fn malformed(range: &str) -> (error: CommandError)
    ensures
        error matches CommandError::ArgParse(message) && message@ == "範囲 '"@ + range@
            + "' が正しくありません。例: 1-10"@,
{
    let mut message = "範囲 '".to_string();
    message.append(range);
    message.append("' が正しくありません。例: 1-10");
    CommandError::ArgParse(message)
}

fn part_of(chars: &Vec<char>, from: usize, to: usize) -> (part: Vec<char>)
    requires
        from <= to <= chars.len(),
    ensures
        part@ == chars@.subrange(from as int, to as int),
{
    let mut part: Vec<char> = Vec::new();
    let mut i: usize = from;
    while i < to
        invariant
            from <= i <= to <= chars.len(),
            part@ == chars@.subrange(from as int, i as int),
        decreases to - i,
    {
        part.push(chars[i]);
        assert(part@ =~= chars@.subrange(from as int, i as int + 1));
        i += 1;
    }
    part
}

impl Range {
    /// The first line of the range.
    pub closed spec fn spec_start(&self) -> nat {
        self.start as nat
    }

    /// The last line of the range.
    pub closed spec fn spec_end(&self) -> nat {
        self.end as nat
    }

    /// The start of a range is not behind its end.
    pub closed spec fn well_formed(&self) -> bool {
        self.start <= self.end
    }

    /// Reads a range such as `1-10`.
    pub fn parse(range: &str) -> (result: Result<Self, CommandError>)
        ensures
            reports(result, range@),
            result matches Ok(r) ==> r.well_formed(),
    {
        let chars = chars_of(range);
        let n = chars.len();
        let mut dash: usize = 0;
        while dash < n && chars[dash] != '-'
            invariant
                dash <= n,
                n == chars.len(),
                forall|k: int| 0 <= k < dash ==> chars[k] != '-',
            decreases n - dash,
        {
            dash += 1;
        }
        proof {
            lemma_position_of_is(chars@, '-', dash as int);
        }
        if dash == n {
            return Err(malformed(range));
        }
        let ghost behind = chars@.subrange(dash + 1, n as int);
        let mut next: usize = dash + 1;
        while next < n && chars[next] != '-'
            invariant
                dash < next <= n,
                n == chars.len(),
                behind == chars@.subrange(dash + 1, n as int),
                forall|k: int| 0 <= k < next - dash - 1 ==> behind[k] != '-',
            decreases n - next,
        {
            next += 1;
        }
        proof {
            lemma_position_of_is(behind, '-', next - dash - 1);
        }
        if next < n {
            return Err(malformed(range));
        }
        let start = match read_number(&part_of(&chars, 0, dash)) {
            Some(start) => start,
            None => {
                let mut message = "開始値 '".to_string();
                message.append(range.substring_char(0, dash));
                message.append("' が数値ではありません。");
                return Err(CommandError::ArgParse(message));
            },
        };
        let end = match read_number(&part_of(&chars, dash + 1, n)) {
            Some(end) => end,
            None => {
                let mut message = "終了値 '".to_string();
                message.append(range.substring_char(dash + 1, n));
                message.append("' が数値ではありません。");
                return Err(CommandError::ArgParse(message));
            },
        };
        if start > end {
            let mut message = "開始値 '".to_string();
            message.append(write_number(start).as_str());
            message.append("' は終了値 '");
            message.append(write_number(end).as_str());
            message.append("' より大きくはできません。");
            return Err(CommandError::InvalidInput(message));
        }
        Ok(Range { start, end })
    }

    pub fn start(&self) -> (start: usize)
        ensures
            start == self.spec_start(),
    {
        self.start
    }

    pub fn end(&self) -> (end: usize)
        ensures
            end == self.spec_end(),
    {
        self.end
    }
}

} // verus!
