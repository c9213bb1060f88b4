use etrace::{Error, ErrorKind, WrappedError, MAX_LEVELS};

#[derive(Debug, Clone, PartialEq)]
enum Kind {
    Io,
    Parse,
}

impl ErrorKind for Kind {
    fn text(&self) -> String {
        format!("{:?}", self)
    }
}

#[derive(Debug, Clone, PartialEq)]
enum Stage {
    Load { attempt: u32 },
}

impl ErrorKind for Stage {
    fn text(&self) -> String {
        format!("{:?}", self)
    }
}

fn io_error() -> Error<Kind> {
    Error::with_kind_desc(Kind::Io, "file missing", "x.rs", 10)
}

fn depth(w: &WrappedError) -> usize {
    let mut n: usize = 1;
    let mut cur = w;
    while let Some(c) = cur.cause() {
        n += 1;
        cur = c;
    }
    n
}

#[test]
fn fresh_error_renders_one_line() {
    let e = io_error();
    assert_eq!(e.render(), "Io: file missing (at x.rs:10)");
    assert_eq!(e.kind, Kind::Io);
    assert_eq!(e.description, "file missing");
    assert_eq!(e.file, "x.rs");
    assert_eq!(e.line, 10);
    assert!(e.sub_error.is_none());
}

#[test]
fn erased_cause_renders_below() {
    let cause: WrappedError = io_error().into();
    let e = Error::propagate_with_kind_desc(Kind::Parse, "config invalid", cause, "y.rs", 20);
    assert_eq!(
        e.render(),
        "Parse: config invalid (at y.rs:20)\n  - Io: file missing (at x.rs:10)"
    );
}

#[test]
fn propagate_same_kind_records_new_place() {
    let e = Error::propagate(io_error(), "z.rs", 30);
    assert_eq!(e.kind, Kind::Io);
    assert_eq!(e.description, "file missing");
    assert_eq!(e.file, "z.rs");
    assert_eq!(e.line, 30);
    assert_eq!(
        e.render(),
        "Io: file missing (at z.rs:30)\n  - Io: file missing (at x.rs:10)"
    );
}

#[test]
fn default_description_is_printed_kind() {
    let e = Error::with_kind(Kind::Parse, "a.rs", 1);
    assert_eq!(e.description, "Parse");
    assert_eq!(e.render(), "Parse: Parse (at a.rs:1)");

    let s = Error::with_kind(Stage::Load { attempt: 3 }, "b.rs", 2);
    assert_eq!(s.description, "Load { attempt: 3 }");

    let w = Error::propagate_with_kind(Kind::Io, io_error().into(), "c.rs", 3);
    assert_eq!(w.description, "Io");
    assert_eq!(
        w.render(),
        "Io: Io (at c.rs:3)\n  - Io: file missing (at x.rs:10)"
    );
}

#[test]
fn explicit_description_is_kept() {
    let e = Error::with_kind_desc(Kind::Parse, "", "d.rs", 4);
    assert_eq!(e.description, "");
    assert_eq!(e.render(), "Parse:  (at d.rs:4)");
}

#[test]
fn erase_keeps_description_place_and_cause() {
    let inner: WrappedError = io_error().into();
    let e = Error::propagate_with_kind_desc(Kind::Parse, "config invalid", inner, "y.rs", 20);
    let before = e.render();
    let w = WrappedError::from(e);
    assert_eq!(w.kind_repr, "Parse");
    assert_eq!(w.description, "config invalid");
    assert_eq!(w.file, "y.rs");
    assert_eq!(w.line, 20);
    let c = w.cause().expect("cause kept");
    assert_eq!(c.kind_repr, "Io");
    assert_eq!(c.description, "file missing");
    assert_eq!(c.file, "x.rs");
    assert_eq!(c.line, 10);
    assert!(c.cause().is_none());
    assert_eq!(w.render(), before);
}

#[test]
fn propagate_wraps_erased_original() {
    let inner = Error::propagate_with_kind_desc(Kind::Parse, "bad", io_error().into(), "p.rs", 5);
    let e = Error::propagate(inner, "q.rs", 6);
    assert_eq!(e.kind, Kind::Parse);
    assert_eq!(e.description, "bad");
    let c = e.sub_error.as_ref().expect("cause set");
    assert_eq!(c.kind_repr, "Parse");
    assert_eq!(c.description, "bad");
    assert_eq!(c.file, "p.rs");
    assert_eq!(c.line, 5);
    assert_eq!(c.cause().map(|x| x.kind_repr.clone()), Some("Io".to_string()));
}

#[test]
fn chain_length_counts_propagation_steps() {
    let mut w: WrappedError = io_error().into();
    assert_eq!(depth(&w), 1);
    for step in 0..5u32 {
        let e = Error::propagate_with_kind(Kind::Parse, w, "s.rs", step);
        w = e.into();
        assert_eq!(depth(&w), step as usize + 2);
    }
}

#[test]
fn three_levels_render_in_order() {
    let c: WrappedError = Error::with_kind_desc(Kind::Io, "c", "c.rs", 3).into();
    let b: WrappedError = Error::propagate_with_kind_desc(Kind::Parse, "b", c, "b.rs", 2).into();
    let a = Error::propagate_with_kind_desc(Kind::Io, "a", b, "a.rs", 1);
    let own_a = Error::with_kind_desc(Kind::Io, "a", "a.rs", 1).render();
    let own_b = Error::with_kind_desc(Kind::Parse, "b", "b.rs", 2).render();
    let own_c = Error::with_kind_desc(Kind::Io, "c", "c.rs", 3).render();
    let expected = format!("{}\n  - {}\n  - {}", own_a, own_b, own_c);
    assert_eq!(a.render(), expected);
    assert_eq!(a.render(), "Io: a (at a.rs:1)\n  - Parse: b (at b.rs:2)\n  - Io: c (at c.rs:3)");
    let w: WrappedError = a.into();
    assert_eq!(w.render(), expected);
    assert_eq!(w.render(), w.render());
}

#[test]
fn line_numbers_in_decimal() {
    assert_eq!(Error::with_kind_desc(Kind::Io, "z", "f.rs", 0).render(), "Io: z (at f.rs:0)");
    assert_eq!(Error::with_kind_desc(Kind::Io, "n", "f.rs", 9).render(), "Io: n (at f.rs:9)");
    assert_eq!(Error::with_kind_desc(Kind::Io, "t", "f.rs", 100).render(), "Io: t (at f.rs:100)");
    assert_eq!(
        Error::with_kind_desc(Kind::Io, "m", "f.rs", u32::MAX).render(),
        "Io: m (at f.rs:4294967295)"
    );
}

#[test]
fn cloned_chain_renders_the_same() {
    let w: WrappedError = Error::propagate(io_error(), "z.rs", 30).into();
    let copy = w.clone();
    assert_eq!(copy.render(), w.render());
}

#[test]
fn long_chain_is_cut_after_the_level_limit() {
    let mut w: WrappedError = Error::with_kind_desc(Kind::Io, "root", "r.rs", 0).into();
    for i in 1..MAX_LEVELS {
        w = Error::propagate_with_kind_desc(Kind::Parse, "up", w, "u.rs", i as u32).into();
    }
    let full = w.render();
    assert_eq!(full.matches("\n  - ").count(), MAX_LEVELS - 1);
    assert!(full.ends_with("\n  - Io: root (at r.rs:0)"));
    assert!(!full.contains("..."));

    let top = Error::propagate_with_kind_desc(Kind::Parse, "top", w, "t.rs", 7);
    let cut = top.render();
    assert!(cut.starts_with("Parse: top (at t.rs:7)\n  - Parse: up (at u.rs:9999)"));
    assert!(cut.ends_with("\n  - Parse: up (at u.rs:1)\n  - ..."));
    assert_eq!(cut.matches("\n  - ").count(), MAX_LEVELS);
}
