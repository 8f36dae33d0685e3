//! Core logic of the Unetic OpenWrt control plane.

pub mod errors;
pub mod text;
pub mod ids;
pub mod order;
pub mod text_map;
pub mod keyed;
pub mod wifi;
pub mod net;
pub mod wan;
pub mod operation;
pub mod ddns;
pub mod dns;
pub mod state;
pub mod mesh;
pub mod wifi_ops;
pub mod completion;
pub mod wan_ops;
pub mod reconcile;
pub mod recovery;
pub mod backend;
pub mod subscription;
pub mod tools;
pub mod device;
pub mod bridge;
pub mod timing;
pub mod snapshot;
pub mod observe;
pub mod maintenance;
pub mod traffic;
pub mod config_edit;
pub mod sync;
pub mod startup;
pub mod api;
pub mod devices;
pub mod publisher;
pub mod json;
