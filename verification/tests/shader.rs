use shader_toy::shader::ShaderVerdict;

#[test]
fn only_a_valid_text_is_accepted() {
    assert!(ShaderVerdict::Valid.is_accepted());
    assert!(!ShaderVerdict::ParseFailed(String::from("expected a token")).is_accepted());
    assert!(!ShaderVerdict::ValidationFailed(String::from("no position")).is_accepted());
    assert!(!ShaderVerdict::ParseFailed(String::new()).is_accepted());
}
