//! Registration metadata: what the extension tells the engine about its
//! classes and methods, and at which initialization level registration
//! happens. The engine-facing calls that carry these descriptors across the
//! C interface live outside; this module fixes their content.

use vstd::prelude::*;

verus! {

/// What the extension reports to the engine about one registered method:
/// its name, how many arguments it declares (the receiver not counted), and
/// whether it returns a value.
pub struct MethodInfo {
    pub name: String,
    pub argument_count: u32,
    pub has_return_value: bool,
}

/// The name under which the base class is known to the engine.
pub fn node3d_class_name() -> (r: String)
    ensures
        r@ == "Node3D"@,
{
    String::from_str("Node3D")
}

/// The name under which the extension class is registered with the engine.
pub fn rust_test_class_name() -> (r: String)
    ensures
        r@ == "RustTest"@,
{
    String::from_str("RustTest")
}

/// The descriptors of the methods the extension class registers, in
/// registration order: `test_method`, `add`, `vec_add`.
pub fn registered_methods() -> (r: Vec<MethodInfo>)
    ensures
        r@.len() == 3,
        r@[0].name@ == "test_method"@,
        r@[0].argument_count == 2,
        r@[0].has_return_value,
        r@[1].name@ == "add"@,
        r@[1].argument_count == 3,
        r@[1].has_return_value,
        r@[2].name@ == "vec_add"@,
        r@[2].argument_count == 2,
        r@[2].has_return_value,
{
    let mut r: Vec<MethodInfo> = Vec::new();
    r.push(
        MethodInfo {
            name: String::from_str("test_method"),
            argument_count: 2,
            has_return_value: true,
        },
    );
    r.push(
        MethodInfo { name: String::from_str("add"), argument_count: 3, has_return_value: true },
    );
    r.push(
        MethodInfo {
            name: String::from_str("vec_add"),
            argument_count: 2,
            has_return_value: true,
        },
    );
    r
}

/// The engine's initialization levels, in the order it passes through them.
#[derive(Clone, Copy, PartialEq, Eq, Structural, Debug)]
pub enum InitLevel {
    Core,
    Servers,
    Scene,
    Editor,
}

/// The earliest initialization level the extension asks the engine for in
/// its entry descriptor.
pub fn minimum_init_level() -> (r: InitLevel)
    ensures
        r == InitLevel::Scene,
{
    InitLevel::Scene
}

/// Decides whether the initialization callback registers the extension
/// class at the given level: only at the scene level, every other level is
/// passed over.
pub fn should_register_class(level: InitLevel) -> (r: bool)
    ensures
        r == (level == InitLevel::Scene),
{
    match level {
        InitLevel::Scene => true,
        _ => false,
    }
}

} // verus!
