use mac_aid::similarity::{order_key, rank_top_k, search_similar, ScoredCommand};
use mac_aid::vector_store::StoredCommand;

fn cosine_similarity(a: &[f32], b: &[f32]) -> f32 {
    if a.len() != b.len() {
        return 0.0;
    }
    let dot_product: f32 = a.iter().zip(b.iter()).map(|(x, y)| x * y).sum();
    let magnitude_a: f32 = a.iter().map(|x| x * x).sum::<f32>().sqrt();
    let magnitude_b: f32 = b.iter().map(|x| x * x).sum::<f32>().sqrt();
    if magnitude_a == 0.0 || magnitude_b == 0.0 {
        return 0.0;
    }
    dot_product / (magnitude_a * magnitude_b)
}

fn command(id: i64, name: &str, embedding: &[f32]) -> StoredCommand {
    StoredCommand {
        id,
        package_name: format!("p{}", id),
        command_name: name.to_string(),
        man_content: "m".to_string(),
        embedding: embedding.iter().map(|v| v.to_bits()).collect(),
    }
}

fn scored(query: &[f32], commands: Vec<StoredCommand>) -> Vec<ScoredCommand> {
    commands
        .into_iter()
        .map(|c| {
            let embedding: Vec<f32> = c.embedding.iter().map(|w| f32::from_bits(*w)).collect();
            ScoredCommand {
                score_bits: cosine_similarity(query, &embedding).to_bits(),
                command: c,
            }
        })
        .collect()
}

fn with_scores(scores: &[f32]) -> Vec<ScoredCommand> {
    scores
        .iter()
        .enumerate()
        .map(|(i, s)| ScoredCommand {
            score_bits: s.to_bits(),
            command: command(i as i64, &format!("c{}", i), &[]),
        })
        .collect()
}

fn names(found: &[StoredCommand]) -> Vec<String> {
    found.iter().map(|c| c.command_name.clone()).collect()
}

fn rank(scores: &[f32], top_k: usize) -> Vec<usize> {
    let bits: Vec<u32> = scores.iter().map(|s| s.to_bits()).collect();
    rank_top_k(&bits, top_k)
}

#[test]
fn test_search_similar_ordering() {
    let stored = vec![command(1, "c1", &[1.0, 0.0]), command(2, "c2", &[0.0, 1.0])];

    let res = search_similar(&scored(&[0.9, 0.1], stored), 1);
    assert_eq!(res.len(), 1);
    assert_eq!(res[0].command_name, "c1");
}

#[test]
fn search_on_an_empty_store_is_empty() {
    assert!(search_similar(&[], 5).is_empty());
    assert!(search_similar(&[], 0).is_empty());
    assert!(rank_top_k(&[], 3).is_empty());
}

#[test]
fn search_returns_the_documents_themselves() {
    let stored = vec![command(11, "c1", &[1.0, 0.0]), command(22, "c2", &[0.0, 1.0])];
    let res = search_similar(&scored(&[0.1, 0.9], stored), 2);
    assert_eq!(names(&res), vec!["c2", "c1"]);
    assert_eq!(res[0].id, 22);
    assert_eq!(res[0].package_name, "p22");
    assert_eq!(res[0].man_content, "m");
    assert_eq!(res[0].embedding, vec![0.0f32.to_bits(), 1.0f32.to_bits()]);
    assert_eq!(res[1].id, 11);
}

#[test]
fn ranking_is_by_falling_score() {
    assert_eq!(rank(&[0.5, 0.9, 0.1, 0.7], 4), vec![1, 3, 0, 2]);
    assert_eq!(rank(&[0.5, 0.9, 0.1, 0.7], 2), vec![1, 3]);
    assert_eq!(rank(&[0.1, 0.2, 0.3, 0.4, 0.5], 3), vec![4, 3, 2]);
    assert_eq!(rank(&[0.5, 0.4, 0.3, 0.2, 0.1], 3), vec![0, 1, 2]);
}

#[test]
fn equal_scores_keep_the_order_of_insertion() {
    assert_eq!(rank(&[0.5, 0.5, 0.5], 3), vec![0, 1, 2]);
    assert_eq!(rank(&[0.5, 0.9, 0.5, 0.9, 0.5], 5), vec![1, 3, 0, 2, 4]);
    assert_eq!(rank(&[0.5, 0.9, 0.5, 0.9, 0.5], 3), vec![1, 3, 0]);
    assert_eq!(names(&search_similar(&with_scores(&[0.3, 0.3, 0.3, 0.3]), 2)), vec!["c0", "c1"]);
}

#[test]
fn top_k_beyond_the_store_returns_everything() {
    assert_eq!(rank(&[0.2, 0.8], 10), vec![1, 0]);
    assert_eq!(rank(&[0.2, 0.8], usize::MAX), vec![1, 0]);
    assert_eq!(search_similar(&with_scores(&[0.2, 0.8]), 10).len(), 2);
}

#[test]
fn top_k_of_zero_returns_nothing() {
    assert!(rank(&[0.2, 0.8], 0).is_empty());
    assert!(search_similar(&with_scores(&[0.2, 0.8]), 0).is_empty());
}

#[test]
fn negative_scores_rank_below_zero_and_both_zeros_tie() {
    assert_eq!(rank(&[-0.5, 0.0, -0.1, 0.3], 4), vec![3, 1, 2, 0]);
    assert_eq!(rank(&[-0.0, 0.0, -0.0], 3), vec![0, 1, 2]);
    assert_eq!(rank(&[-1.0, -0.0, 0.0], 3), vec![1, 2, 0]);
}

#[test]
fn a_score_that_is_no_number_ranks_as_zero() {
    assert_eq!(rank(&[f32::NAN, 0.1, -0.1], 3), vec![1, 0, 2]);
    assert_eq!(rank(&[0.0, f32::NAN, 0.0], 3), vec![0, 1, 2]);
}

#[test]
fn order_key_of_given_bits() {
    assert_eq!(order_key(0), 0);
    assert_eq!(order_key(0x8000_0000), 0);
    assert_eq!(order_key(1.0f32.to_bits()), 0x3f80_0000);
    assert_eq!(order_key((-1.0f32).to_bits()), -0x3f80_0000);
    assert_eq!(order_key(f32::INFINITY.to_bits()), 0x7f80_0000);
    assert_eq!(order_key(f32::NEG_INFINITY.to_bits()), -0x7f80_0000);
    assert_eq!(order_key(f32::NAN.to_bits()), 0);
    assert_eq!(order_key(0x7f80_0001), 0);
    assert_eq!(order_key(0xffff_ffff), 0);
    assert_eq!(order_key(1), 1);
    assert_eq!(order_key(0x8000_0001), -1);
}

#[test]
fn order_key_orders_as_the_numbers_are_ordered() {
    let samples = [
        f32::NEG_INFINITY,
        f32::MIN,
        -1.0,
        -0.75,
        -f32::MIN_POSITIVE,
        -1.0e-45,
        -0.0,
        0.0,
        1.0e-45,
        f32::MIN_POSITIVE,
        0.110_431_53,
        0.5,
        0.993_883_7,
        1.0,
        1.000_000_1,
        f32::MAX,
        f32::INFINITY,
    ];
    for x in samples {
        for y in samples {
            let kx = order_key(x.to_bits());
            let ky = order_key(y.to_bits());
            assert_eq!(x < y, kx < ky, "{} {}", x, y);
            assert_eq!(x == y, kx == ky, "{} {}", x, y);
        }
    }
}

#[test]
fn ranking_agrees_with_a_stable_sort() {
    let mut state: u32 = 12345;
    for round in 0..200 {
        let n = (round % 17) as usize;
        let mut scores = Vec::new();
        for _ in 0..n {
            state = state.wrapping_mul(1_664_525).wrapping_add(1_013_904_223);
            scores.push(((state >> 24) % 7) as f32 / 6.0 - 0.5);
        }
        let mut expected: Vec<usize> = (0..n).collect();
        expected.sort_by(|a, b| scores[*b].partial_cmp(&scores[*a]).unwrap());
        for top_k in [0usize, 1, 2, 5, 16, 40] {
            let want: Vec<usize> = expected.iter().copied().take(top_k).collect();
            assert_eq!(rank(&scores, top_k), want);
        }
    }
}
