use vstd::prelude::*;

verus! {

/// The operating system the application runs on.
pub enum Platform {
    Windows,
    MacOs,
    Linux,
    Android,
    Ios,
    Other,
}

/// Whether the main window uses the native window decorations: on macOS and
/// Linux only.
pub open spec fn spec_native_decorations(platform: Platform) -> bool {
    platform is MacOs || platform is Linux
}

/// Whether the application draws its own title bar.
pub open spec fn spec_custom_titlebar(platform: Platform) -> bool {
    !(platform is MacOs || platform is Linux)
}

/// Whether the main window is set to use the native window decorations at
/// start-up: on macOS and Linux.
pub fn uses_native_decorations(platform: Platform) -> (r: bool)
    ensures
        r == spec_native_decorations(platform),
{
    match platform {
        Platform::MacOs | Platform::Linux => true,
        _ => false,
    }
}

/// Whether the application draws its own title bar: everywhere except on
/// macOS and Linux, where the native window decorations are used.
pub fn show_custom_titlebar_in_os(platform: Platform) -> (r: bool)
    ensures
        r == spec_custom_titlebar(platform),
{
    match platform {
        Platform::MacOs | Platform::Linux => false,
        _ => true,
    }
}

/// The custom title bar is drawn exactly where the native window decorations
/// are not used: never both, never neither.
pub proof fn lemma_custom_titlebar_iff_no_native_decorations(platform: Platform)
    ensures
        spec_custom_titlebar(platform) == !spec_native_decorations(platform),
{
}

} // verus!
