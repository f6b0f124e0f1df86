//! The score store's text: one record per line, a score and the level it was
//! made at, as in `12:Hard`. A line that holds a number only is a score at the
//! normal level. Lines that are neither are passed over.

use vstd::prelude::*;
use vstd::slice::slice_subrange;
use crate::difficulty::Difficulty;
use crate::game::State;

verus! {

/// The byte between score and level.
pub const COLON: u8 = 0x3a;

/// The byte that ends a line.
pub const NEWLINE: u8 = 0x0a;

/// The byte that may stand before the end of a line.
pub const CARRIAGE_RETURN: u8 = 0x0d;

/// The sign of a negative number.
pub const MINUS: u8 = 0x2d;

/// The sign a positive number may have.
pub const PLUS: u8 = 0x2b;

/// The digit zero.
pub const ZERO: u8 = 0x30;

/// Records shown in the list of high scores.
pub const HIGH_SCORE_ROWS: usize = 10;

/// The result of one finished game.
#[derive(Debug, Clone, Copy, PartialEq, Eq, Structural)]
pub struct ScoreRecord {
    pub score: i32,
    pub difficulty: Difficulty,
}

/// Whether `byte` is a decimal digit.
pub open spec fn is_digit(byte: u8) -> bool {
    ZERO <= byte <= ZERO + 9
}

/// Whether `text` holds decimal digits only.
pub open spec fn all_digits(text: Seq<u8>) -> bool {
    forall|i: int| 0 <= i < text.len() ==> is_digit(#[trigger] text[i])
}

/// The number that the digits `text` write.
pub open spec fn digits_value(text: Seq<u8>) -> int
    decreases text.len(),
{
    if text.len() == 0 {
        0
    } else {
        digits_value(text.drop_last()) * 10 + (text.last() - ZERO)
    }
}

/// The digits of `text` once a leading sign is taken off.
pub open spec fn unsigned_part(text: Seq<u8>) -> Seq<u8> {
    if text.len() > 0 && (text[0] == MINUS || text[0] == PLUS) {
        text.drop_first()
    } else {
        text
    }
}

/// The number that `text` writes: an optional sign and at least one digit,
/// nothing else, with a value that an `i32` holds.
pub open spec fn parse_int(text: Seq<u8>) -> Option<int> {
    let digits = unsigned_part(text);
    let value = if text.len() > 0 && text[0] == MINUS {
        -digits_value(digits)
    } else {
        digits_value(digits)
    };
    if digits.len() > 0 && all_digits(digits) && i32::MIN <= value <= i32::MAX {
        Some(value)
    } else {
        None
    }
}

/// Index of the first `byte` in `text`, or the length of `text` if there is
/// none.
pub open spec fn position(text: Seq<u8>, byte: u8) -> int
    decreases text.len(),
{
    if text.len() == 0 || text[0] == byte {
        0
    } else {
        1 + position(text.drop_first(), byte)
    }
}

/// The record that `line` writes. With exactly one colon it is a score and a
/// level's name. Otherwise the whole line must be a number, which is a score at
/// the normal level.
pub open spec fn parse_line(line: Seq<u8>) -> Option<ScoreRecord> {
    let colon = position(line, COLON);
    let name = line.subrange(colon + 1, line.len() as int);
    if colon < line.len() && position(name, COLON) == name.len() {
        match (parse_int(line.subrange(0, colon)), Difficulty::parse_name(name)) {
            (Some(score), Some(difficulty)) => Some(ScoreRecord { score: score as i32, difficulty }),
            _ => None,
        }
    } else {
        match parse_int(line) {
            Some(score) => Some(ScoreRecord { score: score as i32, difficulty: Difficulty::Normal }),
            None => None,
        }
    }
}

/// `line` without the carriage return it may end in.
pub open spec fn without_return(line: Seq<u8>) -> Seq<u8> {
    if line.len() > 0 && line.last() == CARRIAGE_RETURN {
        line.drop_last()
    } else {
        line
    }
}

/// The records that the lines of `content` write, in their order. Lines end
/// in a newline, before which a carriage return may stand; the last line need
/// not end in one. Lines that write no record are passed over.
pub open spec fn parsed_records(content: Seq<u8>) -> Seq<ScoreRecord>
    decreases content.len(),
{
    if content.len() == 0 {
        Seq::empty()
    } else {
        let end = position(content, NEWLINE);
        if 0 <= end < content.len() {
            let rest = parsed_records(content.subrange(end + 1, content.len() as int));
            match parse_line(without_return(content.subrange(0, end))) {
                Some(record) => seq![record] + rest,
                None => rest,
            }
        } else {
            match parse_line(content) {
                Some(record) => seq![record],
                None => Seq::empty(),
            }
        }
    }
}

/// Whether `records` stand with the highest score first.
pub open spec fn highest_first(records: Seq<ScoreRecord>) -> bool {
    forall|i: int, j: int| 0 <= i < j < records.len() ==> records[i].score >= records[j].score
}

/// Index at which a record of `score` joins `records`: behind the leading
/// records of that score or more.
pub open spec fn rank(records: Seq<ScoreRecord>, score: int) -> int
    decreases records.len(),
{
    if records.len() == 0 || records[0].score < score {
        0
    } else {
        1 + rank(records.drop_first(), score)
    }
}

/// The first `upto` of `records` with the highest score first, records of the
/// same score in the order they came in.
pub open spec fn ranked(records: Seq<ScoreRecord>, upto: nat) -> Seq<ScoreRecord>
    recommends
        upto <= records.len(),
    decreases upto,
{
    if upto == 0 {
        Seq::empty()
    } else {
        let rest = ranked(records, (upto - 1) as nat);
        let record = records[upto - 1];
        rest.insert(rank(rest, record.score as int), record)
    }
}

/// The decimal digits of `value`, which is not negative.
pub open spec fn digits_of(value: int) -> Seq<u8>
    recommends
        value >= 0,
    decreases value,
{
    if value < 10 {
        seq![(ZERO + value) as u8]
    } else {
        digits_of(value / 10).push((ZERO + value % 10) as u8)
    }
}

/// `value` in decimal, with a minus sign if it is negative.
pub open spec fn decimal(value: int) -> Seq<u8> {
    if value < 0 {
        seq![MINUS] + digits_of(-value)
    } else {
        digits_of(value)
    }
}

/// The line that writes `record`, without its newline.
pub open spec fn record_line(record: ScoreRecord) -> Seq<u8> {
    decimal(record.score as int) + seq![COLON] + record.difficulty.name_bytes()
}

/// The first `count` records, or all of them if there are fewer.
pub open spec fn leading(records: Seq<ScoreRecord>, count: int) -> Seq<ScoreRecord> {
    if count >= records.len() {
        records
    } else if count <= 0 {
        Seq::empty()
    } else {
        records.take(count)
    }
}

/// The first index at which `byte` stands is the one before which it does not
/// stand.
pub proof fn lemma_position(text: Seq<u8>, byte: u8, index: int)
    requires
        0 <= index <= text.len(),
        forall|j: int| 0 <= j < index ==> text[j] != byte,
        index < text.len() ==> text[index] == byte,
    ensures
        position(text, byte) == index,
    decreases text.len(),
{
    if index > 0 {
        let rest = text.drop_first();
        assert forall|j: int| 0 <= j < index - 1 implies rest[j] != byte by {
            assert(rest[j] == text[j + 1]);
        }
        lemma_position(rest, byte, index - 1);
    }
}

/// The rank of a score is the index before which every record has that score
/// or more, and at which a record has less.
pub proof fn lemma_rank(records: Seq<ScoreRecord>, score: int, index: int)
    requires
        0 <= index <= records.len(),
        forall|j: int| 0 <= j < index ==> records[j].score >= score,
        index < records.len() ==> records[index].score < score,
    ensures
        rank(records, score) == index,
    decreases records.len(),
{
    if index > 0 {
        let rest = records.drop_first();
        assert forall|j: int| 0 <= j < index - 1 implies rest[j].score >= score by {
            assert(rest[j] == records[j + 1]);
        }
        lemma_rank(rest, score, index - 1);
    }
}

/// Digits that go on never write a smaller number than their beginning.
pub proof fn lemma_digits_grow(text: Seq<u8>, upto: int)
    requires
        all_digits(text),
        0 <= upto <= text.len(),
    ensures
        0 <= digits_value(text.take(upto)) <= digits_value(text),
    decreases text.len() - upto,
{
    lemma_digits_not_negative(text.take(upto));
    if upto < text.len() {
        lemma_digits_grow(text, upto + 1);
        assert(text.take(upto + 1).drop_last() =~= text.take(upto));
        assert(is_digit(text[upto]));
    } else {
        assert(text.take(upto) =~= text);
    }
}

/// Digits write a number that is not negative.
pub proof fn lemma_digits_not_negative(text: Seq<u8>)
    requires
        all_digits(text),
    ensures
        digits_value(text) >= 0,
    decreases text.len(),
{
    if text.len() > 0 {
        lemma_digits_not_negative(text.drop_last());
        assert(is_digit(text.last()));
    }
}

/// Reads the number that `text` writes.
pub fn parse_number(text: &[u8]) -> (r: Option<i32>)
    ensures
        r.is_some() == parse_int(text@).is_some(),
        r.is_some() ==> parse_int(text@) == Some(r.unwrap() as int),
{
    let len: usize = text.len();
    if len == 0 {
        return None;
    }
    let negative = text[0] == MINUS;
    let first: usize = if text[0] == MINUS || text[0] == PLUS {
        1
    } else {
        0
    };
    if first == len {
        return None;
    }
    let ghost digits = unsigned_part(text@);
    assert(digits =~= text@.subrange(first as int, len as int));
    let limit: i64 = 0x8000_0000;
    let mut value: i64 = 0;
    let mut i: usize = first;
    while i < len
        invariant
            first <= i <= len,
            len == text@.len(),
            digits == text@.subrange(first as int, len as int),
            digits == unsigned_part(text@),
            all_digits(digits.take(i - first)),
            value == digits_value(digits.take(i - first)),
            0 <= value <= limit,
            limit == 0x8000_0000,
        decreases len - i,
    {
        let byte: u8 = text[i];
        assert(digits[i - first] == byte);
        if byte < ZERO || byte > ZERO + 9 {
            assert(!is_digit(digits[i - first]));
            return None;
        }
        let ghost before = digits.take(i - first);
        let ghost after = digits.take(i - first + 1);
        assert(after.drop_last() =~= before);
        assert(after.last() == byte);
        assert(all_digits(after)) by {
            assert forall|j: int| 0 <= j < after.len() implies is_digit(#[trigger] after[j]) by {
                if j < before.len() {
                    assert(after[j] == before[j]);
                }
            }
        }
        value = value * 10 + (byte - ZERO) as i64;
        assert(value == digits_value(after));
        if value > limit {
            proof {
                if all_digits(digits) {
                    lemma_digits_grow(digits, i - first + 1);
                }
            }
            return None;
        }
        i += 1;
    }
    assert(digits.take(len - first) =~= digits);
    if negative {
        Some((-value) as i32)
    } else if value < limit {
        Some(value as i32)
    } else {
        None
    }
}

/// Index of the first `byte` in `text`, or the length of `text` if there is
/// none.
pub fn find_byte(text: &[u8], byte: u8) -> (r: usize)
    ensures
        r == position(text@, byte),
        r <= text@.len(),
{
    let mut i: usize = 0;
    while i < text.len()
        invariant
            i <= text@.len(),
            forall|j: int| 0 <= j < i ==> text@[j] != byte,
        decreases text.len() - i,
    {
        if text[i] == byte {
            proof {
                lemma_position(text@, byte, i as int);
            }
            return i;
        }
        i += 1;
    }
    proof {
        lemma_position(text@, byte, i as int);
    }
    i
}

/// Reads the record that `line` writes, if it writes one.
pub fn read_line(line: &[u8]) -> (r: Option<ScoreRecord>)
    ensures
        r == parse_line(line@),
{
    let colon: usize = find_byte(line, COLON);
    if colon < line.len() {
        let name = slice_subrange(line, colon + 1, line.len());
        if find_byte(name, COLON) == name.len() {
            let number = slice_subrange(line, 0, colon);
            return match (parse_number(number), Difficulty::from_bytes(name)) {
                (Some(score), Some(difficulty)) => Some(ScoreRecord { score, difficulty }),
                _ => None,
            };
        }
    }
    match parse_number(line) {
        Some(score) => Some(ScoreRecord { score, difficulty: Difficulty::Normal }),
        None => None,
    }
}

/// Reads the records that the lines of `content` write, in their order.
pub fn read_records(content: &[u8]) -> (r: Vec<ScoreRecord>)
    ensures
        r@ == parsed_records(content@),
{
    let len: usize = content.len();
    let mut records: Vec<ScoreRecord> = Vec::new();
    let mut start: usize = 0;
    assert(content@.subrange(0, len as int) =~= content@);
    assert(records@ + parsed_records(content@) =~= parsed_records(content@));
    while start < len
        invariant
            start <= len,
            len == content@.len(),
            records@ + parsed_records(content@.subrange(start as int, len as int))
                == parsed_records(content@),
        decreases len - start,
    {
        let rest = slice_subrange(content, start, len);
        let end: usize = find_byte(rest, NEWLINE);
        let ghost before = records@;
        if end < rest.len() {
            let raw = slice_subrange(rest, 0, end);
            let line = if end > 0 && raw[end - 1] == CARRIAGE_RETURN {
                slice_subrange(raw, 0, end - 1)
            } else {
                raw
            };
            assert(line@ =~= without_return(rest@.subrange(0, end as int)));
            match read_line(line) {
                Some(record) => {
                    records.push(record);
                },
                None => {},
            }
            assert(rest@.subrange(end + 1, rest@.len() as int) =~= content@.subrange(
                start + end + 1,
                len as int,
            ));
            assert(records@ + parsed_records(content@.subrange(start + end + 1, len as int))
                =~= before + parsed_records(rest@));
            start = start + end + 1;
        } else {
            match read_line(rest) {
                Some(record) => {
                    records.push(record);
                },
                None => {},
            }
            assert(content@.subrange(len as int, len as int) =~= Seq::<u8>::empty());
            assert(records@ + parsed_records(content@.subrange(len as int, len as int))
                =~= before + parsed_records(rest@));
            start = len;
        }
    }
    assert(content@.subrange(len as int, len as int) =~= Seq::<u8>::empty());
    assert(records@ + Seq::<ScoreRecord>::empty() =~= records@);
    records
}

/// Puts records in order, the highest score first. Records of the same score
/// keep the order they came in. Nothing is lost and nothing added.
pub fn sort_records(records: &Vec<ScoreRecord>) -> (r: Vec<ScoreRecord>)
    ensures
        r@ == ranked(records@, records@.len()),
        highest_first(r@),
        r@.to_multiset() == records@.to_multiset(),
{
    let mut sorted: Vec<ScoreRecord> = Vec::new();
    let mut i: usize = 0;
    assert(records@.take(0) =~= Seq::<ScoreRecord>::empty());
    while i < records.len()
        invariant
            i <= records@.len(),
            sorted@ == ranked(records@, i as nat),
            highest_first(sorted@),
            sorted@.to_multiset() == records@.take(i as int).to_multiset(),
        decreases records.len() - i,
    {
        let record = records[i];
        let mut at: usize = 0;
        while at < sorted.len() && sorted[at].score >= record.score
            invariant
                at <= sorted@.len(),
                forall|j: int| 0 <= j < at ==> sorted@[j].score >= record.score,
            decreases sorted.len() - at,
        {
            at += 1;
        }
        let ghost before = sorted@;
        proof {
            lemma_rank(before, record.score as int, at as int);
        }
        sorted.insert(at, record);
        proof {
            let after = sorted@;
            assert(after.remove(at as int) =~= before);
            vstd::seq_lib::to_multiset_remove(after, at as int);
            assert(after[at as int] == record);
            vstd::seq_lib::to_multiset_build(records@.take(i as int), record);
            assert(records@.take(i as int).push(record) =~= records@.take(i + 1));
            assert(after.to_multiset().count(record) > 0) by {
                after.to_multiset_ensures();
                assert(after.contains(record));
            }
            assert(after.to_multiset() =~= before.to_multiset().insert(record));
            assert forall|a: int, b: int| 0 <= a < b < after.len() implies after[a].score
                >= after[b].score by {
                if b < at {
                    assert(after[a] == before[a] && after[b] == before[b]);
                } else if b == at {
                    assert(after[a] == before[a]);
                } else if a < at {
                    assert(after[a] == before[a] && after[b] == before[b - 1]);
                } else if a == at {
                    assert(after[b] == before[b - 1]);
                } else {
                    assert(after[a] == before[a - 1] && after[b] == before[b - 1]);
                }
            }
        }
        i += 1;
    }
    assert(records@.take(records@.len() as int) =~= records@);
    sorted
}

/// The first `count` of `records`, or all of them if there are fewer.
pub fn top_scores(records: &Vec<ScoreRecord>, count: usize) -> (r: Vec<ScoreRecord>)
    ensures
        r@ == leading(records@, count as int),
{
    let end: usize = if count < records.len() {
        count
    } else {
        records.len()
    };
    let mut top: Vec<ScoreRecord> = Vec::new();
    let mut i: usize = 0;
    while i < end
        invariant
            i <= end <= records@.len(),
            top@ == records@.take(i as int),
        decreases end - i,
    {
        top.push(records[i]);
        assert(records@.take(i as int).push(records@[i as int]) =~= records@.take(i + 1));
        i += 1;
    }
    assert(records@.take(records@.len() as int) =~= records@);
    assert(records@.take(0) =~= Seq::<ScoreRecord>::empty());
    top
}

/// The text of a score store to which `records` were added one after the
/// other, each on a line of its own.
pub open spec fn written(records: Seq<ScoreRecord>) -> Seq<u8>
    decreases records.len(),
{
    if records.len() == 0 {
        Seq::empty()
    } else {
        record_line(records[0]) + seq![NEWLINE] + written(records.drop_first())
    }
}

/// The digits of a number write that number.
pub proof fn lemma_digits_round_trip(value: int)
    requires
        value >= 0,
    ensures
        digits_of(value).len() >= 1,
        all_digits(digits_of(value)),
        digits_value(digits_of(value)) == value,
    decreases value,
{
    let digits = digits_of(value);
    if value < 10 {
        assert(digits.drop_last() =~= Seq::<u8>::empty());
        assert(digits_value(digits.drop_last()) == 0);
    } else {
        lemma_digits_round_trip(value / 10);
        let front = digits_of(value / 10);
        assert(digits.drop_last() =~= front);
        assert forall|i: int| 0 <= i < digits.len() implies is_digit(#[trigger] digits[i]) by {
            if i < front.len() {
                assert(digits[i] == front[i]);
            }
        }
    }
}

/// A number is read back from its decimal form.
pub proof fn lemma_decimal_round_trip(value: int)
    requires
        i32::MIN <= value <= i32::MAX,
    ensures
        parse_int(decimal(value)) == Some(value),
        forall|i: int|
            0 <= i < decimal(value).len() ==> (#[trigger] decimal(value)[i]) != COLON && decimal(
                value,
            )[i] != NEWLINE,
{
    let text = decimal(value);
    if value < 0 {
        lemma_digits_round_trip(-value);
        let digits = digits_of(-value);
        assert(unsigned_part(text) =~= digits);
        assert forall|i: int| 0 <= i < text.len() implies (#[trigger] text[i]) != COLON && text[i]
            != NEWLINE by {
            if i > 0 {
                assert(is_digit(digits[i - 1]));
            }
        }
    } else {
        lemma_digits_round_trip(value);
        assert(is_digit(text[0]));
        assert(unsigned_part(text) == text);
        assert forall|i: int| 0 <= i < text.len() implies (#[trigger] text[i]) != COLON && text[i]
            != NEWLINE by {
            assert(is_digit(text[i]));
        }
    }
}

/// A record is read back from the line that writes it.
pub proof fn lemma_record_round_trip(record: ScoreRecord)
    ensures
        parse_line(record_line(record)) == Some(record),
        forall|i: int|
            0 <= i < record_line(record).len() ==> (#[trigger] record_line(record)[i]) != NEWLINE,
        record_line(record).len() > 0,
        record_line(record).last() != CARRIAGE_RETURN,
{
    let number = decimal(record.score as int);
    let name = record.difficulty.name_bytes();
    let line = record_line(record);
    lemma_decimal_round_trip(record.score as int);
    record.difficulty.lemma_name_round_trip();
    assert(forall|i: int| 0 <= i < name.len() ==> name[i] != COLON && name[i] != NEWLINE);
    assert(name.len() >= 4 && name.last() != CARRIAGE_RETURN);
    assert(line.len() == number.len() + 1 + name.len());
    assert forall|j: int| 0 <= j < number.len() implies line[j] != COLON by {
        assert(line[j] == number[j]);
    }
    assert(line[number.len() as int] == COLON);
    lemma_position(line, COLON, number.len() as int);
    let tail = line.subrange(number.len() as int + 1, line.len() as int);
    assert(tail =~= name);
    lemma_position(tail, COLON, tail.len() as int);
    assert(line.subrange(0, number.len() as int) =~= number);
    assert forall|i: int| 0 <= i < line.len() implies (#[trigger] line[i]) != NEWLINE by {
        if i < number.len() {
            assert(line[i] == number[i]);
        } else if i > number.len() {
            assert(line[i] == name[i - number.len() - 1]);
        }
    }
    assert(line.last() == name.last());
}

/// What was added to a score store, record by record, is read back from it
/// in the same order.
pub proof fn lemma_written_round_trip(records: Seq<ScoreRecord>)
    ensures
        parsed_records(written(records)) == records,
    decreases records.len(),
{
    if records.len() == 0 {
        assert(parsed_records(written(records)) =~= records);
    } else {
        let line = record_line(records[0]);
        let rest = written(records.drop_first());
        let content = written(records);
        lemma_record_round_trip(records[0]);
        lemma_written_round_trip(records.drop_first());
        assert(content.len() == line.len() + 1 + rest.len());
        assert forall|j: int| 0 <= j < line.len() implies content[j] != NEWLINE by {
            assert(content[j] == line[j]);
        }
        assert(content[line.len() as int] == NEWLINE);
        lemma_position(content, NEWLINE, line.len() as int);
        assert(content.subrange(0, line.len() as int) =~= line);
        assert(content.subrange(line.len() as int + 1, content.len() as int) =~= rest);
        assert(without_return(line) == line);
        assert(seq![records[0]] + records.drop_first() =~= records);
    }
}

/// A line that writes no record adds nothing to what is read.
pub proof fn lemma_unreadable_line_skipped(line: Seq<u8>, rest: Seq<u8>)
    requires
        forall|i: int| 0 <= i < line.len() ==> line[i] != NEWLINE,
        parse_line(without_return(line)) is None,
    ensures
        parsed_records(line + seq![NEWLINE] + rest) == parsed_records(rest),
{
    let content = line + seq![NEWLINE] + rest;
    assert forall|j: int| 0 <= j < line.len() implies content[j] != NEWLINE by {
        assert(content[j] == line[j]);
    }
    assert(content[line.len() as int] == NEWLINE);
    lemma_position(content, NEWLINE, line.len() as int);
    assert(content.subrange(0, line.len() as int) =~= line);
    assert(content.subrange(line.len() as int + 1, content.len() as int) =~= rest);
}

/// Appends the decimal digits of `value` to `out`.
pub fn push_digits(out: &mut Vec<u8>, value: u32)
    ensures
        final(out)@ == old(out)@ + digits_of(value as int),
    decreases value,
{
    if value >= 10 {
        push_digits(out, value / 10);
        out.push(ZERO + (value % 10) as u8);
        assert(out@ =~= old(out)@ + digits_of(value as int));
    } else {
        out.push(ZERO + value as u8);
        assert(out@ =~= old(out)@ + digits_of(value as int));
    }
}

/// The line that writes `record`, without its newline.
pub fn write_record(record: &ScoreRecord) -> (r: Vec<u8>)
    ensures
        r@ == record_line(*record),
{
    let mut line: Vec<u8> = Vec::new();
    if record.score < 0 {
        line.push(MINUS);
        push_digits(&mut line, (-(record.score as i64)) as u32);
    } else {
        push_digits(&mut line, record.score as u32);
    }
    assert(line@ =~= decimal(record.score as int));
    line.push(COLON);
    let name = record.difficulty.name();
    let mut i: usize = 0;
    while i < name.len()
        invariant
            i <= name@.len(),
            name@ == record.difficulty.name_bytes(),
            line@ == decimal(record.score as int) + seq![COLON] + name@.take(i as int),
        decreases name.len() - i,
    {
        line.push(name[i]);
        assert(line@ =~= decimal(record.score as int) + seq![COLON] + name@.take(i + 1));
        i += 1;
    }
    assert(name@.take(name@.len() as int) =~= name@);
    line
}

impl State {
    /// What is added to the score store for a game that ended with `score` at
    /// the level `difficulty`: the record's line and a newline.
    pub fn save_score(score: i32, difficulty: Difficulty) -> (r: Vec<u8>)
        ensures
            r@ == record_line(ScoreRecord { score, difficulty }) + seq![NEWLINE],
    {
        let mut line = write_record(&ScoreRecord { score, difficulty });
        line.push(NEWLINE);
        assert(line@ =~= record_line(ScoreRecord { score, difficulty }) + seq![NEWLINE]);
        line
    }

    /// Reads the score store: the records that the lines of `content` write,
    /// the highest score first.
    pub fn load_scores(content: &[u8]) -> (r: Vec<ScoreRecord>)
        ensures
            r@ == ranked(parsed_records(content@), parsed_records(content@).len()),
            highest_first(r@),
            r@.to_multiset() == parsed_records(content@).to_multiset(),
    {
        let records = read_records(content);
        sort_records(&records)
    }
}

} // verus!
