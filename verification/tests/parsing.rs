use janitor::text::{
    i64_to_string, parse_u64, replace_all, str_eq, str_to_chars, u64_to_string, NumberError,
};
use janitor::util::discord::{
    everyone_role, parse_id, parse_snowflake, push_channel_mention, push_role_mention,
    push_user_mention, Snowflake, SnowflakeError,
};
use janitor::database::migrate::get_sql_statements;
use janitor::util::parsing::{parse_guild_ids, parse_id_texts, parse_ids, parse_role_ids};

#[test]
fn util_parse_snowflake_works() {
    let parsed = parse_snowflake("471026181211422721");

    assert!(parsed.is_ok());
    assert_eq!(parsed.unwrap().get(), 471026181211422721);
}

#[test]
fn util_parse_snowflake_fails() {
    let parsed = parse_snowflake("0");

    assert!(parsed.is_err());
}

#[test]
fn random_utils_parse_snowflake_works() {
    let parsed = parse_snowflake("471026181211422721");

    assert!(parsed.is_ok());
    assert_eq!(parsed.unwrap().get(), 471026181211422721);
}

#[test]
fn random_utils_parse_snowflake_fails() {
    let parsed = parse_snowflake("0");

    assert!(parsed.is_err());
}

#[test]
fn snowflake_errors_name_what_is_wrong() {
    assert_eq!(parse_id(""), Err(SnowflakeError::Empty));
    assert_eq!(parse_id("12a"), Err(SnowflakeError::InvalidDigit));
    assert_eq!(parse_id("-5"), Err(SnowflakeError::InvalidDigit));
    assert_eq!(parse_id("+"), Err(SnowflakeError::InvalidDigit));
    assert_eq!(parse_id(" 5"), Err(SnowflakeError::InvalidDigit));
    assert_eq!(parse_id("18446744073709551616"), Err(SnowflakeError::Overflow));
    assert_eq!(parse_id("000"), Err(SnowflakeError::Zero));
    assert_eq!(parse_id("18446744073709551615"), Ok(u64::MAX));
    assert_eq!(parse_id("+42"), Ok(42));
    assert_eq!(parse_id("0042"), Ok(42));
}

#[test]
fn snowflake_refuses_zero() {
    assert!(Snowflake::new(0).is_none());
    assert_eq!(Snowflake::new(7).unwrap().get(), 7);
}

#[test]
fn parse_u64_agrees_with_the_standard_parser() {
    let samples = [
        "", "0", "7", "+7", "-7", "007", "1_000", "18446744073709551615", "18446744073709551616",
        "99999999999999999999", "12 ", "٣", "+", "++1",
    ];
    for text in samples {
        assert_eq!(parse_u64(text).ok(), text.parse::<u64>().ok(), "{}", text);
    }
    assert_eq!(parse_u64(""), Err(NumberError::Empty));
    assert_eq!(parse_u64("x"), Err(NumberError::InvalidDigit));
    assert_eq!(parse_u64("18446744073709551616"), Err(NumberError::Overflow));
}

#[test]
fn numbers_are_written_in_decimal() {
    assert_eq!(u64_to_string(0), "0");
    assert_eq!(u64_to_string(42), "42");
    assert_eq!(u64_to_string(u64::MAX), "18446744073709551615");
    assert_eq!(i64_to_string(-1), "-1");
    assert_eq!(i64_to_string(i64::MIN), "-9223372036854775808");
    assert_eq!(i64_to_string(i64::MAX), "9223372036854775807");
    for n in [1u64, 9, 10, 99, 100, 1234567890, 471026181211422721] {
        assert_eq!(u64_to_string(n), n.to_string());
    }
}

#[test]
fn text_round_trips_through_characters() {
    assert_eq!(str_to_chars("añ🙂"), vec!['a', 'ñ', '🙂']);
    assert!(str_eq("abc", "abc"));
    assert!(!str_eq("abc", "abd"));
}

#[test]
fn replace_all_agrees_with_the_standard_library() {
    let cases = [
        ("Violation: {type} #{id}", "{type}", "spam"),
        ("{id}{id}{id}", "{id}", "7"),
        ("aaaa", "aa", "b"),
        ("aaa", "aa", "b"),
        ("nothing here", "{id}", "7"),
        ("", "x", "y"),
        ("{i{id}d}", "{id}", "{id}"),
        ("abc", "", "-"),
        ("", "", "-"),
        ("añ", "", ""),
    ];
    for (text, pattern, with) in cases {
        assert_eq!(replace_all(text, pattern, with), text.replace(pattern, with));
    }
}

#[test]
fn id_lists_are_split_trimmed_and_parsed() {
    assert_eq!(parse_ids("1, 2 ,3"), Ok(vec![1, 2, 3]));
    assert_eq!(parse_ids("471026181211422721"), Ok(vec![471026181211422721]));
    assert_eq!(parse_guild_ids("\t5\n,6"), Ok(vec![5, 6]));
    assert_eq!(parse_role_ids("9,9"), Ok(vec![9, 9]));
}

#[test]
fn id_lists_fail_with_the_first_bad_piece() {
    assert_eq!(parse_ids(""), Err(SnowflakeError::Empty));
    assert_eq!(parse_ids("1,,x"), Err(SnowflakeError::Empty));
    assert_eq!(parse_ids("1,x,"), Err(SnowflakeError::InvalidDigit));
    assert_eq!(parse_ids("1,0"), Err(SnowflakeError::Zero));
    assert_eq!(parse_ids("1, 2 3"), Err(SnowflakeError::InvalidDigit));
    assert_eq!(parse_ids("99999999999999999999,x"), Err(SnowflakeError::Overflow));
}

#[test]
fn stored_id_texts_are_not_trimmed() {
    assert_eq!(parse_id_texts(&vec!["1".to_string(), "2".to_string()]), Ok(vec![1, 2]));
    assert_eq!(parse_id_texts(&vec![]), Ok(vec![]));
    assert_eq!(
        parse_id_texts(&vec!["1".to_string(), " 2".to_string()]),
        Err(SnowflakeError::InvalidDigit)
    );
}

#[test]
fn mentions_follow_discord() {
    let mut text = String::from("x");
    push_user_mention(&mut text, 12);
    push_role_mention(&mut text, 34);
    push_channel_mention(&mut text, 56);
    assert_eq!(text, "x<@12><@&34><#56>");
}

#[test]
fn the_everyone_role_carries_the_guild_id() {
    assert_eq!(everyone_role(471026181211422721), 471026181211422721);
}

#[test]
fn id_lists_agree_with_the_standard_library_on_splitting_and_trimming() {
    let samples = [
        "1,2,3",
        " 1 ,\t2\n, 3\u{3000}",
        "\u{a0}7\u{2003}",
        "\u{200b}7",
        ",",
        "1,",
        ",1",
        "1,,2",
        "  ",
        "5\u{85}",
    ];
    for text in samples {
        let expected: Option<Vec<u64>> = text
            .split(',')
            .map(|piece| piece.trim().parse::<u64>().ok().filter(|id| *id != 0))
            .collect();
        assert_eq!(parse_ids(text).ok(), expected, "{:?}", text);
    }
}

#[test]
fn migration_files_are_split_at_blank_lines() {
    let samples = [
        "",
        "CREATE TABLE a;",
        "CREATE TABLE a;\n\nCREATE TABLE b;",
        "a\n\n\nb",
        "a\n\n\n\nb",
        "\n\na\n\n",
        "a\nb\n",
        "\n",
        "\n\n",
    ];
    for content in samples {
        let expected: Vec<String> = content.split("\n\n").map(str::to_string).collect();
        assert_eq!(get_sql_statements(content), expected, "{:?}", content);
    }
}
