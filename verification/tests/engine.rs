use mock_openai::convert::chars_to_tokens;
use mock_openai::convert::tokens_to_chars;
use mock_openai::ring::build_sample_ring;
use mock_openai::ring::ring_entry;
use mock_openai::ring::RingCursor;
use mock_openai::session::total_tokens;
use mock_openai::session::StreamEvent;
use mock_openai::session::StreamingSession;
use mock_openai::slicer::char_pos_to_byte_idx;
use mock_openai::slicer::slice_text_by_tokens;

#[test]
fn test_slicing_text_by_tokens() {
    let s = "hello world this is a test of the slicing function. it should cut off at a token boundary.";
    let cut = slice_text_by_tokens(s, 3);
    assert!(cut.len() > 0 && cut.len() < s.len());
}

#[test]
fn token_char_round_trip() {
    for t in [0usize, 1, 2, 3, 100, 9999] {
        assert_eq!(chars_to_tokens(tokens_to_chars(t)), t);
    }
}

#[test]
fn chars_to_tokens_rounds_up() {
    assert_eq!(chars_to_tokens(0), 0);
    assert_eq!(chars_to_tokens(1), 1);
    assert_eq!(chars_to_tokens(4), 1);
    assert_eq!(chars_to_tokens(5), 2);
    assert_eq!(chars_to_tokens(8), 2);
}

#[test]
fn whole_slice_one_token_no_space_in_range() {
    // 1 token = 4 characters; the first space is past the window
    let s = "hello world this is a test";
    assert_eq!(slice_text_by_tokens(s, 1), "hell");
}

#[test]
fn whole_slice_prefers_space() {
    // 2 tokens = 8 characters; the space after "hello" is inside the window
    let s = "hello world this is a test";
    assert_eq!(slice_text_by_tokens(s, 2), "hello");
}

#[test]
fn whole_slice_returns_short_text_whole() {
    assert_eq!(slice_text_by_tokens("hi", 5), "hi");
    assert_eq!(slice_text_by_tokens("", 5), "");
}

#[test]
fn whole_slice_multibyte_cuts_between_chars() {
    // each 'é' is two bytes; 1 token = 4 characters, never a split byte
    let s = "ééééééééé";
    let cut = slice_text_by_tokens(s, 1);
    assert_eq!(cut, "éééé");
    assert_eq!(cut.chars().count(), 4);
}

#[test]
fn char_pos_to_byte_idx_ascii_and_multibyte() {
    assert_eq!(char_pos_to_byte_idx("hello", 0), 0);
    assert_eq!(char_pos_to_byte_idx("hello", 3), 3);
    assert_eq!(char_pos_to_byte_idx("hello", 10), 5);
    assert_eq!(char_pos_to_byte_idx("éa", 1), 2);
    assert_eq!(char_pos_to_byte_idx("éa", 2), 3);
}

#[test]
fn sample_ring_clamps_negative_to_zero() {
    let ring = build_sample_ring(&vec![-3, 0, 7, -1]);
    assert_eq!(ring, vec![0, 0, 7, 0]);
}

#[test]
fn degenerate_distribution_gives_constant_samples() {
    // mean=100, stddev=0: every raw rounded sample is 100, and so is
    // every ring entry; a session's budget is then tokens_to_chars(100)
    let raw = vec![100isize; 32];
    let ring = build_sample_ring(&raw);
    assert!(ring.iter().all(|&t| t == 100));
    let s = StreamingSession::start(100, None, 0);
    assert_eq!(s.chars_remaining, tokens_to_chars(100));
    assert_eq!(s.chars_remaining, 400);
}

#[test]
fn ring_entry_wraps_modulo_length() {
    let ring = vec![5usize, 6, 7];
    assert_eq!(ring_entry(&ring, 0), 5);
    assert_eq!(ring_entry(&ring, 4), 6);
    assert_eq!(ring_entry(&ring, 300), 5);
}

#[test]
fn ring_cursor_claims_are_distinct() {
    let mut cursor = RingCursor::new();
    let a = cursor.claim();
    let b = cursor.claim();
    let c = cursor.claim();
    assert_eq!(a, 0);
    assert_eq!(b, 1);
    assert_eq!(c, 2);
    assert!(a != b && b != c && a != c);
}

#[test]
fn total_tokens_clamps_and_caps() {
    assert_eq!(total_tokens(-5, None), 1);
    assert_eq!(total_tokens(0, None), 1);
    assert_eq!(total_tokens(100, None), 100);
    assert_eq!(total_tokens(100, Some(10)), 10);
    assert_eq!(total_tokens(5, Some(10)), 5);
}

#[test]
fn max_tokens_truncates_session_budget() {
    let s = StreamingSession::start(100, Some(10), 0);
    assert_eq!(s.chars_remaining, tokens_to_chars(10));
    assert_eq!(s.chars_remaining, 40);
}

#[test]
fn session_emits_prefix_then_one_done() {
    let article = "Lorem ipsum dolor sit amet consectetur adipiscing elit sed do eiusmod tempor";
    let ring = vec![2usize, 1, 3, 2];
    let mut s = StreamingSession::start(10, None, 0);
    let evs = s.run_to_end(article, &ring);
    let mut text = String::new();
    let mut done_count = 0;
    for (i, e) in evs.iter().enumerate() {
        match e {
            StreamEvent::Chunk(c) => {
                assert_eq!(done_count, 0, "chunk after the terminal marker");
                assert!(!c.is_empty());
                text.push_str(c);
            }
            StreamEvent::Done => {
                done_count += 1;
                assert_eq!(i, evs.len() - 1, "events after the terminal marker");
            }
        }
    }
    assert_eq!(done_count, 1);
    assert!(!text.is_empty());
    assert!(article.starts_with(&text));
    // budget was 40 characters; no chunk may overrun it by construction
    assert!(text.chars().count() <= 40 + article.chars().count());
    // the session is exhausted: nothing comes after the terminal marker
    assert!(s.next_event(article, &ring).is_none());
    assert!(s.next_event(article, &ring).is_none());
}

#[test]
fn session_with_zero_budget_emits_only_done() {
    let article = "hello world";
    let ring = vec![3usize];
    let mut s = StreamingSession::start(100, Some(0), 0);
    assert_eq!(s.chars_remaining, 0);
    let evs = s.run_to_end(article, &ring);
    assert_eq!(evs.len(), 1);
    assert!(matches!(evs[0], StreamEvent::Done));
}

#[test]
fn session_stops_when_article_is_exhausted() {
    let article = "short";
    let ring = vec![100usize];
    let mut s = StreamingSession::start(1000, None, 0);
    let evs = s.run_to_end(article, &ring);
    let mut text = String::new();
    for e in evs.iter() {
        if let StreamEvent::Chunk(c) = e {
            text.push_str(c);
        }
    }
    assert_eq!(text, "short");
    assert!(matches!(evs.last(), Some(StreamEvent::Done)));
}

#[test]
fn session_offsets_give_different_chunkings() {
    let article = "aaaa bbbb cccc dddd eeee ffff gggg hhhh";
    let ring = vec![1usize, 4];
    let mut s0 = StreamingSession::start(8, None, 0);
    let mut s1 = StreamingSession::start(8, None, 1);
    let evs0 = s0.run_to_end(article, &ring);
    let evs1 = s1.run_to_end(article, &ring);
    let first_chunk = |evs: &Vec<StreamEvent>| -> String {
        match &evs[0] {
            StreamEvent::Chunk(c) => c.clone(),
            StreamEvent::Done => String::new(),
        }
    };
    // offset 0 starts with a 1-token (4-char) chunk, offset 1 with a
    // 4-token (16-char) chunk
    assert_ne!(first_chunk(&evs0), first_chunk(&evs1));
}

#[test]
fn chunk_steps_cut_at_spaces_and_cover_prefix() {
    // 2 tokens = 8 characters of budget; each ring entry asks 1 token
    let article = "aaaa bbbb";
    let ring = vec![1usize];
    let mut s = StreamingSession::start(2, None, 0);

    let first = s.next_event(article, &ring);
    match first {
        Some(StreamEvent::Chunk(c)) => assert_eq!(c, "aaaa"),
        _ => panic!("expected a chunk first"),
    }
    // the second window reaches char 8; the space at char 4 does not make
    // progress past the cursor, so the chunk runs to the window's end
    let second = s.next_event(article, &ring);
    match second {
        Some(StreamEvent::Chunk(c)) => assert_eq!(c, " bbb"),
        _ => panic!("expected a second chunk"),
    }
    let third = s.next_event(article, &ring);
    assert!(matches!(third, Some(StreamEvent::Done)));
    assert!(s.next_event(article, &ring).is_none());
}

#[test]
fn whole_slice_multibyte_prefers_space() {
    // window of 4 characters holds a space at position 2: cut there, trim
    let s = "éé éé éé";
    assert_eq!(slice_text_by_tokens(s, 1), "éé");
}

#[test]
fn session_on_empty_article_emits_only_done() {
    let ring = vec![1usize];
    let mut s = StreamingSession::start(5, None, 0);
    let evs = s.run_to_end("", &ring);
    assert_eq!(evs.len(), 1);
    assert!(matches!(evs[0], StreamEvent::Done));
}

#[test]
fn whole_slice_never_exceeds_budget_and_never_empty() {
    let s = "The quick brown fox jumps over the lazy dog";
    for t in 1usize..12 {
        let cut = slice_text_by_tokens(s, t);
        assert!(cut.chars().count() <= 4 * t);
        assert!(!cut.is_empty());
    }
}

#[test]
fn trim_removes_unicode_whitespace() {
    // the window of 4 characters ends at the space; the cut prefix carries a
    // trailing no-break space, which trimming removes like any whitespace
    assert_eq!(slice_text_by_tokens("ab\u{00A0} cdefgh", 1), "ab");
}
