//! The trait that a plugin implements: the host calls one method per
//! lifecycle step or room event.

use vstd::prelude::*;
use crate::host::Host;
use crate::model::{Danmaku, DisconnectEvent, PluginContext, PluginMetadata};

verus! {

/// A plugin for the host. Only `metadata` must be written; every other
/// callback does nothing unless the plugin overrides it.
pub trait DanmujiPlugin: Send + 'static {
    /// What the host shows about the plugin.
    fn metadata(&self) -> PluginMetadata;

    /// The host has loaded the plugin.
    fn inited(&mut self, host: Host, ctx: PluginContext) {
    }

    /// The user started the plugin.
    fn start(&mut self, host: Host, ctx: PluginContext) {
    }

    /// The user stopped the plugin.
    fn stop(&mut self, host: Host, ctx: PluginContext) {
    }

    /// The user opened the plugin's settings.
    fn admin(&mut self, host: Host, ctx: PluginContext) {
    }

    /// The host is unloading the plugin.
    fn deinit(&mut self, host: Host, ctx: PluginContext) {
    }

    /// The host connected to the room `room_id`.
    fn connected(&mut self, host: Host, room_id: i32) {
    }

    /// The host lost its connection to the room.
    fn disconnected(&mut self, host: Host, event: DisconnectEvent) {
    }

    /// The number of viewers changed.
    fn room_count(&mut self, host: Host, user_count: u32) {
    }

    /// A message arrived from the room.
    fn danmaku(&mut self, host: Host, danmaku: Danmaku) {
    }
}

} // verus!
