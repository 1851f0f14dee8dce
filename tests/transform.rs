use vikey::transform::{
    TelexTransformer, Transform, TransformResult, Transformer, VIQRTransformer, VNITransformer,
};

struct TestTransformer;

impl Transformer for TestTransformer {
    fn transform(&self, input: &str) -> Option<TransformResult> {
        if input == "aa" {
            Some(TransformResult {
                output: "â".to_string(),
                consumed: 2,
            })
        } else {
            None
        }
    }

    fn name(&self) -> &'static str {
        "test"
    }
}

#[test]
fn test_transformer() {
    let transformer = TestTransformer;
    let result = transformer.transform("aa");
    assert!(result.is_some());
    assert_eq!(result.unwrap().output, "â");
}

#[test]
fn test_transform_engine() {
    let mut transform = Transform::new();
    transform.add_transformer(TestTransformer);

    let result = transform.apply("aa");
    assert!(result.is_some());
    assert_eq!(result.unwrap().output, "â");

    let result = transform.apply("bb");
    assert!(result.is_none());
}

#[test]
fn telex_test_telex_vowels() {
    let transformer = TelexTransformer::new();

    let result = transformer.transform("aa");
    assert!(result.is_some());
    assert_eq!(result.unwrap().output, "â");

    let result = transformer.transform("aw");
    assert!(result.is_some());
    assert_eq!(result.unwrap().output, "ă");
}

#[test]
fn test_telex_dd() {
    let transformer = TelexTransformer::new();

    let result = transformer.transform("dd");
    assert!(result.is_some());
    assert_eq!(result.unwrap().output, "đ");
}

#[test]
fn telex_transformer_tones_and_lone_w() {
    let t = TelexTransformer::new();
    assert_eq!(
        t.transform("tw"),
        Some(TransformResult { output: "tư".to_string(), consumed: 1 })
    );
    assert_eq!(
        t.transform("hoas"),
        Some(TransformResult { output: "hoá".to_string(), consumed: 4 })
    );
    assert_eq!(t.transform("bcs"), None);
    assert_eq!(t.transform("b"), None);
    assert_eq!(t.name(), "telex");
    assert!(VNITransformer::new().transform("a1").is_none());
    assert!(VIQRTransformer::new().transform("a'").is_none());
}
