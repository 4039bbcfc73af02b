use error_compat::Backtrace;
use error_compat::Compat;
use error_compat::DebugRender;
use error_compat::Fail;
use error_compat::MinimalError;
use error_compat::Render;
use error_compat::RichError;

fn rich(message: &str) -> RichError {
    RichError::new(
        String::from(message),
        Backtrace::new(vec![String::from("read_config"), String::from("main")]),
    )
}

#[test]
fn round_trip_returns_original() {
    let e = rich("disk quota exceeded");
    let c = Compat::new(e.clone());
    assert_eq!(c.into_inner(), e);
}

#[test]
fn round_trip_on_empty_rendering() {
    let e = RichError::new(String::new(), Backtrace::new(Vec::new()));
    let c = Compat::new(e.clone());
    assert_eq!(c.into_inner(), e);
}

#[test]
fn rendering_is_transparent() {
    let e = rich("permission denied");
    let c = Compat::new(e.clone());
    assert_eq!(c.render(), e.render());
    assert_eq!(c.render(), "permission denied");
}

#[test]
fn peek_many_times_then_unwrap() {
    let e = rich("connection reset");
    let c = Compat::new(e.clone());
    assert_eq!(c.get_ref(), &e);
    assert_eq!(c.get_ref(), &e);
    assert_eq!(c.get_ref(), &e);
    assert_eq!(c.into_inner(), e);
}

#[test]
fn description_is_the_fixed_placeholder() {
    let c = Compat::new(rich("permission denied"));
    assert_eq!(c.description(), "An error has occurred.");
}

#[test]
fn description_ignores_the_wrapped_content() {
    let a = Compat::new(rich("first failure"));
    let b = Compat::new(RichError::new(String::new(), Backtrace::new(Vec::new())));
    assert_eq!(a.description(), b.description());
}

#[test]
fn backtrace_is_the_wrapped_snapshot() {
    let e = rich("connection reset");
    let c = Compat::new(e.clone());
    assert_eq!(c.backtrace(), Some(&e.backtrace));
    assert_eq!(c.backtrace().unwrap(), c.get_ref().backtrace());
}

#[test]
fn boxing_preserves_the_rendering() {
    let e = rich("disk quota exceeded");
    let boxed = error_compat::into_boxed_minimal(e.clone());
    assert_eq!(boxed.render(), e.render());
    assert_eq!(boxed.description(), "An error has occurred.");
}

#[test]
fn scenario_file_not_found() {
    let e = rich("file not found");
    let c = Compat::new(e);
    assert_eq!(c.render(), "file not found");
    assert_eq!(c.description(), "An error has occurred.");
}

#[test]
fn scenario_boxed_rendering_unchanged() {
    let e = rich("file not found");
    let boxed = error_compat::into_boxed_minimal(e.clone());
    assert_eq!(boxed.render(), e.render());
}

#[test]
fn debug_rendering_of_the_rich_error() {
    let e = rich("timed out");
    assert_eq!(e.debug_render(), "timed out");
}

#[test]
fn constructors_keep_their_parts() {
    let frames = vec![String::from("parse"), String::from("run")];
    let bt = Backtrace::new(frames.clone());
    assert_eq!(bt.frames, frames);
    let e = RichError::new(String::from("bad input"), bt.clone());
    assert_eq!(e.message, "bad input");
    assert_eq!(e.backtrace, bt);
    assert_eq!(e.backtrace(), &bt);
}
