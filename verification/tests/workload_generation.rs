use osm_microbenchmarks::workload::{
    choose_query_key, generate_corpus, generate_oram_requests, generate_pairs, setup_oram,
};

#[test]
fn corpus_has_exactly_n_times_f_pairs() {
    let corpus = generate_corpus(8, 4);
    assert_eq!(corpus.keys.len(), 8);
    assert_eq!(corpus.vals_per_key, 4);
    assert_eq!(corpus.pairs.len(), 32);
}

#[test]
fn corpus_pairs_are_grouped_by_key() {
    let corpus = generate_corpus(5, 7);
    for (i, (k, _)) in corpus.pairs.iter().enumerate() {
        assert_eq!(*k, corpus.keys[i / 7]);
    }
}

#[test]
fn corpus_of_single_values_matches_keys() {
    let corpus = generate_corpus(16, 1);
    assert_eq!(corpus.pairs.len(), 16);
    for (i, (k, _)) in corpus.pairs.iter().enumerate() {
        assert_eq!(*k, corpus.keys[i]);
    }
}

#[test]
fn query_key_comes_from_the_corpus_key_set() {
    for _ in 0..32 {
        let corpus = generate_corpus(6, 3);
        let key = choose_query_key(&corpus).expect("non-empty corpus yields a key");
        assert!(corpus.pairs.iter().any(|(k, _)| *k == key));
    }
}

#[test]
fn empty_corpus_yields_no_query_key() {
    let corpus = generate_corpus(0, 2);
    assert!(choose_query_key(&corpus).is_err());
}

#[test]
fn fresh_pairs_have_the_requested_count() {
    assert_eq!(generate_pairs(10).len(), 10);
    assert_eq!(generate_pairs(0).len(), 0);
}

#[test]
fn oram_requests_are_in_range() {
    let keys = generate_oram_requests(16, 100);
    assert_eq!(keys.len(), 100);
    assert!(keys.iter().all(|k| *k < 16));
}

#[test]
fn oram_data_map_is_consecutive_synthetic_blocks() {
    let map = setup_oram(5, 8);
    assert_eq!(map.len(), 5);
    for (i, (key, content)) in map.iter().enumerate() {
        assert_eq!(*key, i as u64);
        assert_eq!(content.len(), 8);
        assert!(content.iter().all(|b| *b == (i as u64 % 128) as u8));
    }
}

#[test]
fn oram_data_map_uses_the_encoding_width() {
    let map = setup_oram(3, 64);
    for (_, content) in map.iter() {
        assert_eq!(content.len(), 64);
    }
}
