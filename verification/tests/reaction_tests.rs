use resolve::errors::ApiError;
use resolve::ids::Oid;
use resolve::reaction::{summarize_reactions, validate_emoji, CommentReaction, SetReactionRequest, MAX_EMOJI_CHARS};

fn request(emoji: &str) -> SetReactionRequest {
    SetReactionRequest { emoji: emoji.to_string() }
}

fn row(user: u128, emoji: &str) -> CommentReaction {
    CommentReaction {
        id: None,
        group_id: Oid { value: 1 },
        ticket_id: Oid { value: 2 },
        comment_id: Oid { value: 3 },
        user_id: Oid { value: user },
        emoji: emoji.to_string(),
        created_at: 0,
    }
}

#[test]
fn validate_emoji_rejects_blank() {
    assert!(matches!(validate_emoji(&request("   ")), Err(ApiError::Validation(_))));
}

#[test]
fn validate_emoji_rejects_over_limit() {
    let too_long = "x".repeat(MAX_EMOJI_CHARS + 1);
    assert!(matches!(validate_emoji(&request(&too_long)), Err(ApiError::Validation(_))));
}

#[test]
fn validate_emoji_trims_and_accepts_a_real_emoji() {
    assert_eq!(validate_emoji(&request(" \u{1F44D} ")).unwrap(), "\u{1F44D}");
}

#[test]
fn emoji_messages() {
    match validate_emoji(&request("")) {
        Err(ApiError::Validation(m)) => assert_eq!(m, "emoji is required"),
        other => panic!("unexpected {:?}", other),
    }
    match validate_emoji(&request("123456789")) {
        Err(ApiError::Validation(m)) => assert_eq!(m, "emoji is too long"),
        other => panic!("unexpected {:?}", other),
    }
    assert_eq!(validate_emoji(&request("12345678")).unwrap(), "12345678");
}

#[test]
fn summary_groups_sorts_and_counts() {
    let rows = vec![
        row(1, "\u{1F44D}"),
        row(2, "\u{2764}"),
        row(3, "\u{1F44D}"),
        row(4, "a"),
        row(5, "\u{2764}"),
        row(6, "\u{1F44D}"),
    ];
    let s = summarize_reactions(&rows, Oid { value: 5 });
    let emojis: Vec<&str> = s.iter().map(|r| r.emoji.as_str()).collect();
    assert_eq!(emojis, vec!["a", "\u{2764}", "\u{1F44D}"]);
    let counts: Vec<i64> = s.iter().map(|r| r.count).collect();
    assert_eq!(counts, vec![1, 2, 3]);
    let mine: Vec<bool> = s.iter().map(|r| r.reacted_by_me).collect();
    assert_eq!(mine, vec![false, true, false]);
    assert_eq!(counts.iter().sum::<i64>(), rows.len() as i64);
}

#[test]
fn summary_of_no_reactions_is_empty() {
    assert!(summarize_reactions(&[], Oid { value: 1 }).is_empty());
}
