use google_ai_rs::chat::{merge_candidates, merge_parts};
use google_ai_rs::content::{Candidate, Content, GroundingAttribution, Part};
use google_ai_rs::proto::attribution_source_id::{GroundingPassageId, Source};
use google_ai_rs::proto::AttributionSourceId;

fn candidate(index: i32, text: &str, finish_reason: i32) -> Candidate {
    Candidate {
        index: Some(index),
        content: Some(Content::model(text)),
        finish_reason,
        safety_ratings: vec![],
        citation_metadata: None,
        token_count: 0,
        grounding_attributions: vec![],
    }
}

#[test]
fn _merge_candidates() {
    let mut c1 = vec![candidate(2, "r1 i2", 1), candidate(0, "r1 i0", 2)];

    let c2 = vec![candidate(0, ";r2 i0", 3), candidate(1, ";r2 i1", 4)];

    let want = vec![candidate(2, "r1 i2", 1), candidate(0, "r1 i0;r2 i0", 3)];

    merge_candidates(&mut c1, &c2);
    assert_eq!(c1, want);
    let mut c3 = vec![];
    merge_candidates(&mut c3, &want);
    assert_eq!(c3, want);
}

#[test]
fn merge_texts() {
    struct Test {
        update: Vec<Part>,
        want: Vec<Part>,
    }

    let tests = vec![
        Test {
            update: vec![Part::text("a")],
            want: vec![Part::text("a")],
        },
        Test {
            update: vec![Part::text("a"), Part::text("b"), Part::text("c")],
            want: vec![Part::text("abc")],
        },
        Test {
            update: vec![
                Part::blob("b1", vec![]),
                Part::text("a"),
                Part::text("b"),
                Part::blob("b2", vec![]),
                Part::text("c"),
            ],
            want: vec![
                Part::blob("b1", vec![]),
                Part::text("ab"),
                Part::blob("b2", vec![]),
                Part::text("c"),
            ],
        },
        Test {
            update: vec![
                Part::text("a"),
                Part::text("b"),
                Part::blob("b1", vec![]),
                Part::text("c"),
                Part::text("d"),
                Part::blob("b2", vec![]),
            ],
            want: vec![
                Part::text("ab"),
                Part::blob("b1", vec![]),
                Part::text("cd"),
                Part::blob("b2", vec![]),
            ],
        },
    ];

    for test in tests {
        assert_eq!(merge_parts(vec![], test.update), test.want)
    }
}

#[test]
fn merging_keeps_the_first_grounding_attributions() {
    let attribution = GroundingAttribution {
        source_id: Some(AttributionSourceId {
            source: Some(Source::GroundingPassage(GroundingPassageId { passage_id: "p1".to_owned(), part_index: 2 })),
        }),
        content: Some(Content::model("cited")),
    };
    let mut first = candidate(0, "a", 0);
    first.grounding_attributions = vec![attribution.clone()];
    let mut merged = vec![first];
    merge_candidates(&mut merged, &[candidate(0, "b", 1)]);
    assert_eq!(merged[0].grounding_attributions, vec![attribution]);
    assert_eq!(merged[0].content, Some(Content::model("ab")));
}
