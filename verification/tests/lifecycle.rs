use inochi2d::error::ErrorRecord;
use inochi2d::instance::{Capabilities, Inochi2D};
use inochi2d::native::NativeCall;
use inochi2d::puppet::Inochi2DPuppet;

fn rendering() -> Inochi2D {
    let capabilities = Capabilities { rendering_backend: true, diagnostics: true };
    Inochi2D::create(true, capabilities).expect("the native context was set up")
}

fn headless() -> Inochi2D {
    let capabilities = Capabilities { rendering_backend: false, diagnostics: false };
    Inochi2D::create(true, capabilities).expect("the native context was set up")
}

fn load<'a>(instance: &'a Inochi2D, path: &str, handle: usize) -> Inochi2DPuppet<'a> {
    Inochi2DPuppet::new(instance, String::from(path))
        .finish(handle, ErrorRecord::Absent)
        .expect("the handle is not null")
}

#[test]
fn update_calls_the_owned_handle() {
    let instance = rendering();
    let mut puppet = load(&instance, "Aka.inp", 0x5500_0010);
    assert_eq!(puppet.update(), NativeCall::Update { handle: 0x5500_0010 });
    assert_eq!(puppet.update(), NativeCall::Update { handle: 0x5500_0010 });
    assert_eq!(puppet.name(), "Aka.inp");
}

#[test]
fn draw_calls_the_owned_handle() {
    let instance = rendering();
    let mut puppet = load(&instance, "Aka.inp", 0x5500_0010);
    assert_eq!(puppet.draw(), Some(NativeCall::Draw { handle: 0x5500_0010 }));
    assert_eq!(puppet.name(), "Aka.inp");
}

#[test]
fn draw_without_a_rendering_backend_makes_no_call() {
    let instance = headless();
    let mut puppet = load(&instance, "Aka.inp", 0x5500_0010);
    assert_eq!(puppet.draw(), None);
    assert_eq!(puppet.update(), NativeCall::Update { handle: 0x5500_0010 });
    assert_eq!(puppet.dispose(), NativeCall::Destroy { handle: 0x5500_0010 });
}

#[test]
fn teardown_destroys_the_handle_once_and_last() {
    let instance = rendering();
    let handle = 0x7ffd_4000;
    let mut puppet = load(&instance, "Aka.inp", handle);
    let mut calls = Vec::new();
    for _ in 0..3 {
        calls.push(puppet.update());
        calls.extend(puppet.draw());
    }
    calls.push(puppet.dispose());
    assert_eq!(calls.len(), 7);
    let destroy = NativeCall::Destroy { handle };
    assert_eq!(calls.iter().filter(|call| **call == destroy).count(), 1);
    assert_eq!(calls.last(), Some(&destroy));
    for (index, call) in calls[..6].iter().enumerate() {
        if index % 2 == 0 {
            assert_eq!(*call, NativeCall::Update { handle });
        } else {
            assert_eq!(*call, NativeCall::Draw { handle });
        }
    }
}

#[test]
fn teardown_right_after_the_load_destroys_the_handle() {
    let instance = headless();
    let puppet = load(&instance, "Aka.inp", 1);
    assert_eq!(puppet.dispose(), NativeCall::Destroy { handle: 1 });
}

#[test]
fn wrappers_of_one_instance_are_independent() {
    let instance = rendering();
    let mut first = load(&instance, "Aka.inp", 0x1000);
    let mut second = load(&instance, "Midori.inp", 0x2000);
    assert_eq!(second.update(), NativeCall::Update { handle: 0x2000 });
    assert_eq!(second.dispose(), NativeCall::Destroy { handle: 0x2000 });
    assert_eq!(first.name(), "Aka.inp");
    assert_eq!(first.update(), NativeCall::Update { handle: 0x1000 });
    assert_eq!(first.draw(), Some(NativeCall::Draw { handle: 0x1000 }));
    assert_eq!(first.dispose(), NativeCall::Destroy { handle: 0x1000 });
}

#[test]
fn a_failed_load_holds_nothing() {
    let instance = rendering();
    let failed = Inochi2DPuppet::new(&instance, String::from("missing.inp"))
        .finish(0, ErrorRecord::Absent);
    assert!(failed.is_err());
    let mut next = load(&instance, "Aka.inp", 0x3000);
    assert_eq!(next.update(), NativeCall::Update { handle: 0x3000 });
    assert_eq!(next.dispose(), NativeCall::Destroy { handle: 0x3000 });
}
