use proc_macro2::TokenStream;
use quick_macros::deref_impl::quick_deref2;

fn tokens(text: &str) -> TokenStream {
    text.parse().unwrap()
}

fn implementor_of(output: &TokenStream) -> String {
    let text = output.to_string();
    let start = text.find("Deref for").expect("a Deref impl") + "Deref for".len();
    let end = start + text[start..].find('{').unwrap();
    text[start..end].trim().to_string()
}

fn target_of(output: &TokenStream) -> String {
    let text = output.to_string();
    let start = text.find("type Target =").expect("a Deref impl") + "type Target =".len();
    let end = start + text[start..].find(';').unwrap();
    text[start..end].trim().to_string()
}

#[test]
fn main() {
    let some_new_type = quick_deref2(TokenStream::new(), tokens("pub struct SomeNewType(u8);"));
    assert_eq!(target_of(&some_new_type), tokens("u8").to_string());
    assert_eq!(implementor_of(&some_new_type), "SomeNewType");

    let wrapped_handle = quick_deref2(tokens("handle"), tokens("pub struct WrappedHandle { handle: u128, }"));
    assert_eq!(target_of(&wrapped_handle), tokens("u128").to_string());
    assert_eq!(implementor_of(&wrapped_handle), "WrappedHandle");

    let wrapped_many = quick_deref2(
        tokens("target = buffer"),
        tokens("pub struct WrappedManyThings { buffer: std::sync::Arc<[u8]>, _handle: WrappedHandle, }"),
    );
    assert_eq!(target_of(&wrapped_many), tokens("std::sync::Arc<[u8]>").to_string());
    assert_eq!(implementor_of(&wrapped_many), "WrappedManyThings");
    assert_eq!(wrapped_many.to_string().matches("Deref for").count(), 1);
}
