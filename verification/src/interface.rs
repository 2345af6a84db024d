//! The names under which the compositor advertises the two globals a
//! session binds.

use vstd::prelude::*;
use wayland_client::protocol::wl_seat::WlSeat;
use wayland_client::Proxy;
use wayland_protocols_wlr::data_control::v1::client::zwlr_data_control_manager_v1::ZwlrDataControlManagerV1;

verus! {

/// The interface name of the seat global.
pub open spec fn seat_interface() -> Seq<char> {
    "wl_seat"@
}

/// The interface name of the data-control manager global.
pub open spec fn manager_interface() -> Seq<char> {
    "zwlr_data_control_manager_v1"@
}

/// The `name` of the interface description that `wayland_client` generates
/// for `WlSeat`, read through `Proxy::interface`. Trusted: the protocol
/// description that the crate is generated from names the interface `wl_seat`.
#[verifier::external_body]
pub(crate) fn seat_interface_name() -> (r: &'static str)
    ensures
        r@ == seat_interface(),
{
    WlSeat::interface().name
}

/// The `name` of the interface description that `wayland_protocols_wlr`
/// generates for `ZwlrDataControlManagerV1`, read through `Proxy::interface`.
/// Trusted: the protocol description that the crate is generated from names
/// the interface `zwlr_data_control_manager_v1`.
#[verifier::external_body]
pub(crate) fn manager_interface_name() -> (r: &'static str)
    ensures
        r@ == manager_interface(),
{
    ZwlrDataControlManagerV1::interface().name
}

} // verus!
