use llama_chat::sys::llm::{
    BatchEntry, Content, LlamaCtx, PromptTemplate, Role, SimpleOption, StreamState,
};

const EOS: i32 = 2;

fn template() -> PromptTemplate {
    PromptTemplate {
        header_prefix: String::from("<|"),
        header_suffix: String::from("|>"),
        end_of_content: String::from("\n"),
        stops: vec![String::from("<|end|>")],
    }
}

#[test]
fn nine_tokens_at_capacity_four_flush_twice() {
    let mut session = LlamaCtx::new(template(), 4, EOS);
    let tokens: Vec<i32> = (101..110).collect();
    let flushes = session.chat(&tokens, SimpleOption::Plain);
    assert_eq!(flushes.len(), 2);
    for (f, batch) in flushes.iter().enumerate() {
        assert_eq!(batch.len(), 4);
        for (j, entry) in batch.iter().enumerate() {
            let p = f * 4 + j;
            assert_eq!(*entry, BatchEntry { token: tokens[p], pos: p });
        }
    }
    assert_eq!(session.batch, vec![BatchEntry { token: 109, pos: 8 }]);
    assert_eq!(session.n_cur, 9);
}

#[test]
fn prompt_shorter_than_capacity_never_flushes() {
    let mut session = LlamaCtx::new(template(), 8, EOS);
    let tokens: Vec<i32> = vec![5, 6, 7];
    let flushes = session.chat(&tokens, SimpleOption::Plain);
    assert!(flushes.is_empty());
    assert_eq!(session.batch.len(), 3);
    assert_eq!(session.n_cur, 3);
}

#[test]
fn prompt_exactly_at_capacity_keeps_final_batch() {
    let mut session = LlamaCtx::new(template(), 4, EOS);
    let tokens: Vec<i32> = vec![1, 3, 5, 7];
    let flushes = session.chat(&tokens, SimpleOption::Plain);
    assert!(flushes.is_empty());
    assert_eq!(session.batch.len(), 4);
}

#[test]
fn prompt_of_one_token_past_capacity_flushes_once() {
    let mut session = LlamaCtx::new(template(), 4, EOS);
    let tokens: Vec<i32> = vec![1, 3, 5, 7, 9];
    let flushes = session.chat(&tokens, SimpleOption::Plain);
    assert_eq!(flushes.len(), 1);
    assert_eq!(flushes[0].len(), 4);
    assert_eq!(session.batch, vec![BatchEntry { token: 9, pos: 4 }]);
}

#[test]
fn mirostat_mu_starts_at_twice_tau() {
    let mut session = LlamaCtx::new(template(), 4, EOS);
    let tokens: Vec<i32> = vec![1, 2, 3];
    session.chat(&tokens, SimpleOption::MirostatV2(4000, 250));
    let state = session.stream.unwrap();
    assert_eq!(state.mu, 8000);
    assert_eq!(state.option, SimpleOption::MirostatV2(4000, 250));
}

#[test]
fn plain_strategy_carries_zero_mu() {
    let mut session = LlamaCtx::new(template(), 4, EOS);
    session.chat(&vec![1], SimpleOption::Plain);
    assert_eq!(session.stream, Some(StreamState { option: SimpleOption::Plain, mu: 0 }));
}

#[test]
fn set_mu_updates_only_active_stream() {
    let mut session = LlamaCtx::new(template(), 4, EOS);
    session.set_mu(77);
    assert_eq!(session.stream, None);
    session.chat(&vec![1, 2], SimpleOption::MirostatV2(2000, 100));
    session.set_mu(3777);
    let state = session.stream.unwrap();
    assert_eq!(state.mu, 3777);
    assert_eq!(state.option, SimpleOption::MirostatV2(2000, 100));
}

#[test]
fn commit_token_restages_batch_and_advances() {
    let mut session = LlamaCtx::new(template(), 4, EOS);
    session.chat(&vec![10, 11, 12], SimpleOption::Plain);
    let cont = session.commit_token(55);
    assert!(cont);
    assert_eq!(session.batch, vec![BatchEntry { token: 55, pos: 3 }]);
    assert_eq!(session.n_cur, 4);
    assert!(session.stream.is_some());
}

#[test]
fn end_of_sequence_token_ends_stream() {
    let mut session = LlamaCtx::new(template(), 4, EOS);
    session.chat(&vec![10, 11], SimpleOption::Plain);
    let cont = session.commit_token(EOS);
    assert!(!cont);
    assert_eq!(session.stream, None);
    assert_eq!(session.n_cur, 3);
}

#[test]
fn decode_fragment_ascii() {
    let mut session = LlamaCtx::new(template(), 4, EOS);
    session.chat(&vec![1], SimpleOption::Plain);
    let fragment = session.decode_fragment(&vec![b'h', b'i']);
    assert_eq!(fragment, "hi");
}

#[test]
fn decode_fragment_reassembles_split_multibyte_character() {
    let mut session = LlamaCtx::new(template(), 4, EOS);
    session.chat(&vec![1], SimpleOption::Plain);
    let first = session.decode_fragment(&vec![0xC3]);
    assert_eq!(first, "");
    let second = session.decode_fragment(&vec![0xA9]);
    assert_eq!(second, "é");
}

#[test]
fn reset_after_cancelled_generation_is_independent() {
    let prompt: Vec<i32> = vec![21, 22, 23, 24, 25];
    let option = SimpleOption::MirostatV2(3000, 200);

    let mut used = LlamaCtx::new(template(), 2, EOS);
    used.chat(&vec![1, 2, 3, 4, 5, 6, 7], SimpleOption::Temp(900));
    used.commit_token(42);
    used.decode_fragment(&vec![0xC3]);
    used.set_mu(123);
    let used_flushes = used.chat(&prompt, option);

    let mut fresh = LlamaCtx::new(template(), 2, EOS);
    let fresh_flushes = fresh.chat(&prompt, option);

    assert_eq!(used_flushes, fresh_flushes);
    assert_eq!(used.n_cur, fresh.n_cur);
    assert_eq!(used.batch, fresh.batch);
    assert_eq!(used.stream, fresh.stream);
    let used_fragment = used.decode_fragment(&vec![0xE2, 0x88]);
    let fresh_fragment = fresh.decode_fragment(&vec![0xE2, 0x88]);
    assert_eq!(used_fragment, fresh_fragment);
    assert_eq!(used_fragment, "");
}

#[test]
fn is_stop_trims_through_session_template() {
    let mut session = LlamaCtx::new(template(), 4, EOS);
    session.chat(&vec![1], SimpleOption::Plain);
    let mut text = String::from("hello<|end|>");
    assert!(session.is_stop(&mut text));
    assert_eq!(text, "hello");
    let mut more = String::from("hello");
    assert!(!session.is_stop(&mut more));
    assert_eq!(more, "hello");
}

#[test]
fn encode_then_ingest_counts_every_token() {
    let t = template();
    let turns = vec![
        Content { role: Role::System, message: String::from("be brief") },
        Content { role: Role::User, message: String::from("hi") },
    ];
    let prompt = t.encode_string(&turns);
    assert_eq!(prompt, "<|system|>be brief\n<|user|>hi\n<|assistant|>");
    let tokens: Vec<i32> = prompt.bytes().map(i32::from).collect();
    let count = tokens.len();
    let mut session = LlamaCtx::new(t, 16, EOS);
    let flushes = session.chat(&tokens, SimpleOption::TopK(40, 1));
    assert_eq!(session.n_cur, count);
    assert_eq!(flushes.len(), (count - 1) / 16);
}
