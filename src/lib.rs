//! Resolution and provisioning of the TabNine language server for the Lapce
//! editor: configuration override, platform mapping, download naming, archive
//! entry planning and the initialization state machine that ties them together.
pub mod text;
pub mod error;
pub mod platform;
pub mod settings;
pub mod release;
pub mod launch;
pub mod extract;
pub mod pipeline;
