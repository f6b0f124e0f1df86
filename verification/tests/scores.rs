use flappy_dragon::difficulty::Difficulty;
use flappy_dragon::game::State;
use flappy_dragon::scores::{
    find_byte, parse_number, push_digits, read_line, read_records, sort_records, top_scores,
    write_record, ScoreRecord,
};

fn record(score: i32, difficulty: Difficulty) -> ScoreRecord {
    ScoreRecord { score, difficulty }
}

#[test]
fn saved_records_are_loaded_highest_first() {
    let mut store = Vec::new();
    store.extend(State::save_score(12, Difficulty::Hard));
    store.extend(State::save_score(7, Difficulty::Easy));
    assert_eq!(store, b"12:Hard\n7:Easy\n".to_vec());
    assert_eq!(
        State::load_scores(&store),
        vec![record(12, Difficulty::Hard), record(7, Difficulty::Easy)]
    );
}

#[test]
fn a_malformed_line_is_ignored() {
    let expected = vec![record(12, Difficulty::Hard), record(7, Difficulty::Easy)];
    assert_eq!(State::load_scores(b"12:Hard\n7:Easy\ngarbage\n"), expected);
    assert_eq!(State::load_scores(b"garbage\n12:Hard\n7:Easy\n"), expected);
    assert_eq!(State::load_scores(b"12:Hard\ngarbage\n7:Easy\n"), expected);
    assert_eq!(State::load_scores(b"12:Hard\n7:Easy\ngarbage"), expected);
}

#[test]
fn loading_sorts_by_score() {
    assert_eq!(
        State::load_scores(b"7:Easy\n12:Hard\n3:Insane\n40:Normal\n"),
        vec![
            record(40, Difficulty::Normal),
            record(12, Difficulty::Hard),
            record(7, Difficulty::Easy),
            record(3, Difficulty::Insane),
        ]
    );
}

#[test]
fn an_empty_store_holds_no_records() {
    assert!(State::load_scores(b"").is_empty());
    assert!(State::load_scores(b"\n\n\n").is_empty());
}

#[test]
fn a_bare_number_is_a_score_at_the_normal_level() {
    assert_eq!(State::load_scores(b"15\n"), vec![record(15, Difficulty::Normal)]);
    assert_eq!(read_line(b"15"), Some(record(15, Difficulty::Normal)));
    assert_eq!(read_line(b"-2"), Some(record(-2, Difficulty::Normal)));
}

#[test]
fn lines_that_write_no_record() {
    for line in [
        &b"abc:Hard"[..],
        b"12:hard",
        b"12:Hard:x",
        b"12:Hard:",
        b":12:Hard",
        b":Hard",
        b"12:",
        b":",
        b"",
        b"1 2:Hard",
        b" 12:Hard",
        b"12 :Hard",
        b"12: Hard",
        b"12.5:Hard",
        b"0x10:Hard",
        b"--1:Hard",
        b"+-1:Hard",
        b"-:Hard",
        b"+:Hard",
        b"12;Hard",
        b"Hard:12",
        b"12:Hard\r",
        b"12a",
        b"+",
        b"-",
    ] {
        assert_eq!(read_line(line), None);
    }
}

#[test]
fn numbers_are_read_as_signed_decimals() {
    assert_eq!(parse_number(b"0"), Some(0));
    assert_eq!(parse_number(b"-0"), Some(0));
    assert_eq!(parse_number(b"+5"), Some(5));
    assert_eq!(parse_number(b"-3"), Some(-3));
    assert_eq!(parse_number(b"007"), Some(7));
    assert_eq!(parse_number(b"2147483647"), Some(i32::MAX));
    assert_eq!(parse_number(b"+2147483647"), Some(i32::MAX));
    assert_eq!(parse_number(b"-2147483648"), Some(i32::MIN));
    assert_eq!(parse_number(b"0000000000000000000000012"), Some(12));
}

#[test]
fn numbers_out_of_range_are_rejected() {
    assert_eq!(parse_number(b"2147483648"), None);
    assert_eq!(parse_number(b"+2147483648"), None);
    assert_eq!(parse_number(b"-2147483649"), None);
    assert_eq!(parse_number(b"99999999999999999999999999999999"), None);
    assert_eq!(parse_number(b"-99999999999999999999999999999999"), None);
    assert_eq!(parse_number(b""), None);
    assert_eq!(parse_number(b"1_000"), None);
    assert_eq!(parse_number(b"12\n"), None);
    assert_eq!(parse_number(b"\xff"), None);
}

#[test]
fn signed_scores_are_read_from_records() {
    assert_eq!(read_line(b"+5:Easy"), Some(record(5, Difficulty::Easy)));
    assert_eq!(read_line(b"-3:Easy"), Some(record(-3, Difficulty::Easy)));
    assert_eq!(read_line(b"007:Insane"), Some(record(7, Difficulty::Insane)));
    assert_eq!(read_line(b"2147483648:Easy"), None);
}

#[test]
fn lines_may_end_in_carriage_return_and_newline() {
    assert_eq!(
        read_records(b"12:Hard\r\n7:Easy\r\n"),
        vec![record(12, Difficulty::Hard), record(7, Difficulty::Easy)]
    );
    assert_eq!(read_records(b"12:Hard\r\r\n"), Vec::new());
    assert_eq!(read_records(b"\r\n5\r\n"), vec![record(5, Difficulty::Normal)]);
}

#[test]
fn the_last_line_needs_no_newline() {
    assert_eq!(
        read_records(b"12:Hard\n7:Easy"),
        vec![record(12, Difficulty::Hard), record(7, Difficulty::Easy)]
    );
    assert_eq!(read_records(b"7:Easy"), vec![record(7, Difficulty::Easy)]);
    assert_eq!(read_records(b"7:Easy\r"), Vec::new());
}

#[test]
fn records_are_read_in_the_order_of_their_lines() {
    assert_eq!(
        read_records(b"1:Easy\n\nx\n3:Hard\n2\n"),
        vec![
            record(1, Difficulty::Easy),
            record(3, Difficulty::Hard),
            record(2, Difficulty::Normal)
        ]
    );
}

#[test]
fn records_are_written_as_score_colon_level() {
    assert_eq!(State::save_score(12, Difficulty::Hard), b"12:Hard\n".to_vec());
    assert_eq!(State::save_score(0, Difficulty::Normal), b"0:Normal\n".to_vec());
    assert_eq!(State::save_score(-5, Difficulty::Easy), b"-5:Easy\n".to_vec());
    assert_eq!(State::save_score(i32::MAX, Difficulty::Insane), b"2147483647:Insane\n".to_vec());
    assert_eq!(State::save_score(i32::MIN, Difficulty::Insane), b"-2147483648:Insane\n".to_vec());
    assert_eq!(write_record(&record(100, Difficulty::Easy)), b"100:Easy".to_vec());
}

#[test]
fn digits_are_appended_in_decimal() {
    let mut out = b"x".to_vec();
    push_digits(&mut out, 0);
    push_digits(&mut out, 9);
    push_digits(&mut out, 10);
    push_digits(&mut out, 4_294_967_295);
    assert_eq!(out, b"x09104294967295".to_vec());
}

#[test]
fn every_written_record_is_read_back() {
    let levels = [Difficulty::Easy, Difficulty::Normal, Difficulty::Hard, Difficulty::Insane];
    let scores = [0, 1, 9, 10, 99, 100, 12345, -1, -10, i32::MAX, i32::MIN];
    let mut store = Vec::new();
    let mut written = Vec::new();
    for score in scores {
        for level in levels {
            assert_eq!(read_line(&write_record(&record(score, level))), Some(record(score, level)));
            store.extend(State::save_score(score, level));
            written.push(record(score, level));
        }
    }
    assert_eq!(read_records(&store), written);
}

#[test]
fn sorting_keeps_every_record_and_the_order_of_equal_scores() {
    let records = vec![
        record(5, Difficulty::Easy),
        record(9, Difficulty::Normal),
        record(5, Difficulty::Hard),
        record(-1, Difficulty::Insane),
        record(9, Difficulty::Easy),
        record(5, Difficulty::Insane),
    ];
    assert_eq!(
        sort_records(&records),
        vec![
            record(9, Difficulty::Normal),
            record(9, Difficulty::Easy),
            record(5, Difficulty::Easy),
            record(5, Difficulty::Hard),
            record(5, Difficulty::Insane),
            record(-1, Difficulty::Insane),
        ]
    );
    assert!(sort_records(&Vec::new()).is_empty());
}

#[test]
fn the_list_shows_the_first_ten() {
    let records: Vec<ScoreRecord> = (0..12).map(|i| record(100 - i, Difficulty::Normal)).collect();
    let top = top_scores(&records, 10);
    assert_eq!(top.len(), 10);
    assert_eq!(top, records[..10].to_vec());
    assert_eq!(top_scores(&records, 12), records);
    assert_eq!(top_scores(&records, 50), records);
    assert!(top_scores(&records, 0).is_empty());
    assert_eq!(top_scores(&records[..3].to_vec(), 10), records[..3].to_vec());
}

#[test]
fn find_byte_gives_the_first_index_or_the_length() {
    assert_eq!(find_byte(b"12:Hard", b':'), 2);
    assert_eq!(find_byte(b"::", b':'), 0);
    assert_eq!(find_byte(b"abc", b':'), 3);
    assert_eq!(find_byte(b"", b':'), 0);
}
