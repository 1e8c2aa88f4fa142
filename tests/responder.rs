use http_testing_server::{resolve_target, Body, Delay, Opened, Reply, ServerResponder, Step, Target};
use std::path::PathBuf;

fn hosting() -> ServerResponder {
    ServerResponder::builder().host_directory(PathBuf::from("site")).build()
}

fn empty(status: u16) -> Step {
    Step::Reply(Reply { status, body: Body::Empty })
}

#[test]
fn plain_responder_replies_ok_with_empty_body() {
    let r = ServerResponder::builder().build();
    assert_eq!(r.start("/"), empty(200));
    assert_eq!(r.start("/../secret"), empty(200));
    assert_eq!(r.start("/some/file.txt"), empty(200));
    assert_eq!(r.start(""), empty(200));
}

#[test]
fn override_replaces_status_without_directory() {
    let r = ServerResponder::builder().status_code(503).build();
    assert_eq!(r.start("/anything"), empty(503));
}

#[test]
fn override_replaces_status_of_every_outcome() {
    let r = ServerResponder::builder()
        .host_directory(PathBuf::from("site"))
        .status_code(418)
        .build();
    assert_eq!(r.start("/../secret"), empty(418));
    assert_eq!(r.start("/"), empty(418));
    assert_eq!(r.start("/a.txt"), Step::Open("a.txt".to_string()));
    assert_eq!(r.finish(Opened::Found), Reply { status: 418, body: Body::File });
    assert_eq!(r.finish(Opened::Missing), Reply { status: 418, body: Body::Empty });
    assert_eq!(
        r.finish(Opened::Failed("denied".to_string())),
        Reply { status: 418, body: Body::Text("denied".to_string()) }
    );
}

#[test]
fn parent_component_is_bad_request() {
    let r = hosting();
    assert_eq!(r.start("/../secret"), empty(400));
    assert_eq!(r.start("/a/../b"), empty(400));
    assert_eq!(r.start("/a/.."), empty(400));
    assert_eq!(r.start("/.."), empty(400));
}

#[test]
fn root_marker_is_bad_request() {
    let r = hosting();
    assert_eq!(r.start("//etc/passwd"), empty(400));
}

#[test]
fn dots_inside_names_are_no_parent() {
    let r = hosting();
    assert_eq!(r.start("/a..b"), Step::Open("a..b".to_string()));
    assert_eq!(r.start("/.../x"), Step::Open(".../x".to_string()));
    assert_eq!(r.start("/./x"), Step::Open("./x".to_string()));
    assert_eq!(r.start("/..x/y"), Step::Open("..x/y".to_string()));
}

#[test]
fn empty_path_is_not_found() {
    let r = hosting();
    assert_eq!(r.start("/"), empty(404));
    assert_eq!(r.start(""), empty(404));
}

#[test]
fn multibyte_first_character_is_not_found() {
    let r = hosting();
    assert_eq!(r.start("\u{e9}x"), empty(404));
    assert_eq!(r.start("/\u{e9}"), Step::Open("\u{e9}".to_string()));
}

#[test]
fn file_path_is_stripped_of_its_separator() {
    let r = hosting();
    assert_eq!(r.start("/dir/index.html"), Step::Open("dir/index.html".to_string()));
}

#[test]
fn missing_file_is_not_found() {
    let r = hosting();
    assert_eq!(r.finish(Opened::Missing), Reply { status: 404, body: Body::Empty });
}

#[test]
fn found_file_is_served() {
    let r = hosting();
    assert_eq!(r.finish(Opened::Found), Reply { status: 200, body: Body::File });
}

#[test]
fn other_open_error_is_server_error_with_text() {
    let r = hosting();
    assert_eq!(
        r.finish(Opened::Failed("Is a directory (os error 21)".to_string())),
        Reply { status: 500, body: Body::Text("Is a directory (os error 21)".to_string()) }
    );
}

#[test]
fn builder_keeps_settings() {
    let r = ServerResponder::builder()
        .host_directory(PathBuf::from("/srv/www"))
        .status_code(201)
        .extra_delay(Delay::from_secs(3))
        .build();
    assert_eq!(r.host_directory(), Some(&PathBuf::from("/srv/www")));
    assert_eq!(r.status_code(), Some(201));
    assert_eq!(r.extra_delay().secs(), 3);
    assert_eq!(r.extra_delay().subsec_nanos(), 0);
}

#[test]
fn unset_delay_defaults_to_zero() {
    let r = ServerResponder::builder().build();
    assert_eq!(r.host_directory(), None);
    assert_eq!(r.status_code(), None);
    assert_eq!(*r.extra_delay(), Delay::zero());
}

#[test]
fn remaining_delay_is_what_is_left() {
    let r = ServerResponder::builder().extra_delay(Delay::from_secs(2)).build();
    let left = r.remaining_delay(&Delay::from_parts(0, 500_000_000));
    assert_eq!(left, Delay::from_parts(1, 500_000_000));
    assert_eq!(r.remaining_delay(&Delay::from_secs(3)), Delay::zero());
    assert_eq!(r.remaining_delay(&Delay::from_secs(2)), Delay::zero());
    assert_eq!(r.remaining_delay(&Delay::zero()), Delay::from_secs(2));
}

#[test]
fn remaining_delay_covers_delay_after_work() {
    let r = ServerResponder::builder().extra_delay(Delay::from_parts(1, 250)).build();
    let elapsed = Delay::from_parts(0, 999_999_999);
    let left = r.remaining_delay(&elapsed);
    assert_eq!(left, Delay::from_parts(0, 251));
}

#[test]
fn saturating_sub_borrows_a_second() {
    let a = Delay::from_parts(2, 100);
    let b = Delay::from_parts(1, 200);
    assert_eq!(a.saturating_sub(&b), Delay::from_parts(0, 999_999_900));
    assert_eq!(b.saturating_sub(&a), Delay::zero());
}

#[test]
fn delay_accessors() {
    let d = Delay::from_parts(u64::MAX, 999_999_999);
    assert_eq!(d.secs(), u64::MAX);
    assert_eq!(d.subsec_nanos(), 999_999_999);
}

#[test]
fn resolve_target_strips_and_guards() {
    assert_eq!(resolve_target("/a/b"), Target::File("a/b".to_string()));
    assert_eq!(resolve_target("/../x"), Target::BadRequest);
    assert_eq!(resolve_target("/"), Target::NotFound);
    assert_eq!(resolve_target(""), Target::NotFound);
}
