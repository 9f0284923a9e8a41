//! The module shim's responders: one verified function per host entry
//! point. Every responder is stateless; each returns the diagnostic line
//! it asks to have written and, where the host expects one, a fixed
//! status constant. The only branching logic in the whole module is the
//! byte-exact comparison inside the interface lookup.

use crate::table::Capability;
use crate::table::InstanceInterfaceTable;
use vstd::prelude::*;

verus! {

/// Status code the host reads as success.
pub const PP_OK: i32 = 0;

/// The host's boolean truth constant.
pub const PP_TRUE: i32 = 1;

/// The host's boolean falsehood constant.
pub const PP_FALSE: i32 = 0;

/// The byte string naming the single capability the module provides:
/// `PPP_Instance;1.1` followed by its terminating nul.
pub open spec fn instance_interface_name() -> Seq<u8> {
    seq![
        80u8, 80u8, 80u8, 95u8, // P P P _
        73u8, 110u8, 115u8, 116u8, 97u8, 110u8, 99u8, 101u8, // I n s t a n c e
        59u8, 49u8, 46u8, 49u8, // ; 1 . 1
        0u8, // nul terminator
    ]
}

/// The recognized capability name as an executable value, for the
/// boundary that receives raw name bytes and for anything that wants to
/// display it.
pub fn instance_interface_name_bytes() -> (r: Vec<u8>)
    ensures
        r@ == instance_interface_name(),
{
    let mut v: Vec<u8> = Vec::new();
    v.push(80u8);
    v.push(80u8);
    v.push(80u8);
    v.push(95u8);
    v.push(73u8);
    v.push(110u8);
    v.push(115u8);
    v.push(116u8);
    v.push(97u8);
    v.push(110u8);
    v.push(99u8);
    v.push(101u8);
    v.push(59u8);
    v.push(49u8);
    v.push(46u8);
    v.push(49u8);
    v.push(0u8);
    proof {
        assert(v@ =~= instance_interface_name());
    }
    v
}

/// Byte-for-byte equality of two byte strings.
fn bytes_equal(a: &[u8], b: &[u8]) -> (r: bool)
    ensures
        r <==> a@ == b@,
{
    if a.len() != b.len() {
        return false;
    }
    let mut i: usize = 0;
    while i < a.len()
        invariant
            i <= a.len(),
            a.len() == b.len(),
            forall|j: int| 0 <= j < i ==> a@[j] == b@[j],
        decreases a.len() - i,
    {
        if a[i] != b[i] {
            return false;
        }
        i = i + 1;
    }
    proof {
        assert(a@ =~= b@);
    }
    true
}

/// The diagnostic line module initialization reports.
pub open spec fn initialize_line() -> Seq<char> {
    "[call] initialize module"@
}

/// The diagnostic line an interface lookup reports on entry.
pub open spec fn get_interface_line() -> Seq<char> {
    "[call] get interface"@
}

/// The diagnostic line module teardown reports.
pub open spec fn shutdown_line() -> Seq<char> {
    "[call] shutdown module"@
}

/// The diagnostic line the instance-creation callback reports.
pub open spec fn did_create_line() -> Seq<char> {
    "[call] did create"@
}

/// The diagnostic line the instance-destruction callback reports.
pub open spec fn did_destroy_line() -> Seq<char> {
    "[call] did destroy"@
}

/// The diagnostic line the view-changed callback reports.
pub open spec fn did_change_view_line() -> Seq<char> {
    "[call] did change view"@
}

/// The diagnostic line the focus-changed callback reports.
pub open spec fn did_change_focus_line() -> Seq<char> {
    "[call] did change focus"@
}

/// The diagnostic line the document-load callback reports.
pub open spec fn handle_document_load_line() -> Seq<char> {
    "[call] handle document load"@
}

/// The second line an interface lookup reports: the name served on a
/// match, a fixed unknown-interface marker otherwise.
pub open spec fn instance_reply_line() -> Seq<char> {
    "PPP_Instance;1.1"@
}

/// The reply line for any unrecognized name: a fixed marker, never the
/// requested name itself.
pub open spec fn unknown_reply_line() -> Seq<char> {
    "PPP_Unknown;0.0"@
}

/// Module initialization: both arguments are ignored and success is
/// always signaled. Returns the diagnostic line and the status.
pub fn initialize_module(_argc: i32, _args: i32) -> (r: (&'static str, i32))
    ensures
        r.0@ == initialize_line(),
        r.1 == PP_OK,
{
    ("[call] initialize module", PP_OK)
}

/// Module teardown: nothing was acquired, so nothing is released; the
/// call only reports itself. There is no hidden one-shot state, so every
/// call yields the very same line.
pub fn shutdown_module() -> (r: &'static str)
    ensures
        r@ == shutdown_line(),
{
    "[call] shutdown module"
}

/// Shutting down is idempotent: the module keeps no one-shot teardown
/// state, so the observable effect of any two shutdown calls — the line
/// each reports — is the same.
pub proof fn lemma_shutdown_idempotent(first: Seq<char>, second: Seq<char>)
    requires
        first == shutdown_line(),
        second == shutdown_line(),
    ensures
        first == second,
{
}

/// The interface lookup, the module's one branch: the requested name —
/// the raw bytes the host handed over, terminating nul included — is
/// compared byte for byte against the single recognized literal. On an
/// exact match the instance capability is served, with the canonical
/// table; any other byte string yields no capability. Returns the entry
/// diagnostic line, the reply line naming what was served, and the
/// capability itself.
pub fn get_interface(name: &[u8]) -> (r: (&'static str, &'static str, Capability))
    ensures
        r.0@ == get_interface_line(),
        name@ == instance_interface_name() ==> {
            &&& r.1@ == instance_reply_line()
            &&& r.2 == Capability::InstanceCapability(InstanceInterfaceTable::canonical())
        },
        name@ != instance_interface_name() ==> {
            &&& r.1@ == unknown_reply_line()
            &&& r.2 == Capability::NoCapability
        },
{
    let literal = instance_interface_name_bytes();
    if bytes_equal(name, literal.as_slice()) {
        ("[call] get interface", "PPP_Instance;1.1", Capability::InstanceCapability(
            InstanceInterfaceTable::new(),
        ))
    } else {
        ("[call] get interface", "PPP_Unknown;0.0", Capability::NoCapability)
    }
}

/// Instance creation callback: arguments (instance handle, argument
/// count, and the addresses of the two argument arrays) are ignored;
/// creation is always accepted.
pub fn did_create(_instance: i32, _argc: u32, _argn: usize, _argv: usize) -> (r: (
    &'static str,
    i32,
))
    ensures
        r.0@ == did_create_line(),
        r.1 == PP_TRUE,
{
    ("[call] did create", PP_TRUE)
}

/// Instance destruction callback: the handle is ignored and there is
/// nothing to tear down; the call only reports itself.
pub fn did_destroy(_instance: i32) -> (r: &'static str)
    ensures
        r@ == did_destroy_line(),
{
    "[call] did destroy"
}

/// View-changed callback: both arguments are ignored.
pub fn did_change_view(_instance: i32, _view: i32) -> (r: &'static str)
    ensures
        r@ == did_change_view_line(),
{
    "[call] did change view"
}

/// Focus-changed callback: both arguments are ignored.
pub fn did_change_focus(_instance: i32, _has_focus: i32) -> (r: &'static str)
    ensures
        r@ == did_change_focus_line(),
{
    "[call] did change focus"
}

/// Document-load callback: a deliberate placeholder that always reports
/// the load as not handled, whatever the arguments.
pub fn handle_document_load(_instance: i32, _url_loader: i32) -> (r: (&'static str, i32))
    ensures
        r.0@ == handle_document_load_line(),
        r.1 == PP_FALSE,
{
    ("[call] handle document load", PP_FALSE)
}

} // verus!
