use binchotan_filters::errors::RunError;
use binchotan_filters::loader::Filter;
use binchotan_filters::meta::FilterMeta;
use binchotan_filters::record::{FieldValue, Tweet};

fn filter_with(src: &str) -> Filter {
    Filter {
        src: String::from(src),
        meta: FilterMeta {
            name: String::from("test"),
            description: String::from("a test filter"),
            author: String::from("t"),
            entrypoint: String::from("main.script"),
        },
    }
}

fn sample_tweet() -> Tweet {
    let mut tweet = Tweet::new();
    tweet.set_field(String::from("text"), FieldValue::Str(String::from("hello world")));
    tweet.set_field(String::from("likes"), FieldValue::Int(41));
    tweet.set_field(String::from("pinned"), FieldValue::Bool(false));
    tweet
}

fn str_field(v: &FieldValue) -> &str {
    match v {
        FieldValue::Str(s) => s,
        _ => panic!("expected a string field"),
    }
}

#[test]
fn dropper_suppresses_every_record() {
    let filter = filter_with("return nil");
    let out = filter.run(&sample_tweet()).expect("dropper must not fail");
    assert!(out.is_none());
    let out = filter.run(&Tweet::new()).expect("dropper must not fail");
    assert!(out.is_none());
}

#[test]
fn identity_script_returns_equal_record() {
    let filter = filter_with("return post");
    let tweet = sample_tweet();
    let out = filter.run(&tweet).expect("identity must not fail");
    let out = out.expect("identity must keep the record");
    assert_eq!(out.field_count(), 3);
    assert_eq!(str_field(out.get_field("text").unwrap()), "hello world");
    assert!(matches!(out.get_field("likes"), Some(FieldValue::Int(41))));
    assert!(matches!(out.get_field("pinned"), Some(FieldValue::Bool(false))));
}

#[test]
fn tagger_adds_field_and_input_is_untouched() {
    let filter = filter_with("post.tag = \"extra\"\nreturn post");
    let tweet = sample_tweet();
    let out = filter.run(&tweet).expect("tagger must not fail");
    let out = out.expect("tagger must keep the record");
    assert_eq!(out.field_count(), 4);
    assert_eq!(str_field(out.get_field("tag").unwrap()), "extra");
    assert_eq!(str_field(out.get_field("text").unwrap()), "hello world");
    // value semantics: the input record is not aliased by the output
    assert_eq!(tweet.field_count(), 3);
    assert!(tweet.get_field("tag").is_none());
}

#[test]
fn modifying_script_changes_field() {
    let filter = filter_with("post.likes = post.likes + 1\nreturn post");
    let out = filter.run(&sample_tweet()).unwrap().unwrap();
    assert!(matches!(out.get_field("likes"), Some(FieldValue::Int(42))));
}

#[test]
fn calls_are_isolated_from_each_other() {
    // If any state leaked between calls, the second call would see `seen`
    // set and return the record instead of nil.
    let filter = filter_with("if seen == nil then seen = 1 return nil else return post end");
    let first = filter.run(&sample_tweet()).expect("first call must not fail");
    let second = filter.run(&sample_tweet()).expect("second call must not fail");
    assert!(first.is_none());
    assert!(second.is_none());
}

#[test]
fn syntax_error_is_a_script_error() {
    let filter = filter_with("return ((");
    assert!(matches!(filter.run(&sample_tweet()), Err(RunError::ScriptError(_))));
}

#[test]
fn runtime_error_is_a_script_error() {
    let filter = filter_with("error(\"boom\")");
    match filter.run(&sample_tweet()) {
        Err(RunError::ScriptError(msg)) => assert!(msg.contains("boom")),
        _ => panic!("a raised error must surface as ScriptError"),
    }
}

#[test]
fn scalar_return_is_a_marshal_error() {
    let filter = filter_with("return 5");
    assert!(matches!(filter.run(&sample_tweet()), Err(RunError::MarshalError)));
}

#[test]
fn float_field_is_a_marshal_error() {
    let filter = filter_with("post.score = 1.5\nreturn post");
    assert!(matches!(filter.run(&sample_tweet()), Err(RunError::MarshalError)));
}

#[test]
fn nested_table_is_a_marshal_error() {
    let filter = filter_with("return { a = {} }");
    assert!(matches!(filter.run(&sample_tweet()), Err(RunError::MarshalError)));
}

#[test]
fn non_string_key_is_a_marshal_error() {
    let filter = filter_with("return { [1] = \"x\" }");
    assert!(matches!(filter.run(&sample_tweet()), Err(RunError::MarshalError)));
}

#[test]
fn empty_record_round_trips() {
    let filter = filter_with("return post");
    let out = filter.run(&Tweet::new()).unwrap().unwrap();
    assert_eq!(out.field_count(), 0);
}
