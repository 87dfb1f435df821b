pub mod paths;
pub mod template;
pub mod config;
pub mod pipeline;
pub mod manifest;
pub mod settings;
pub mod gui;

pub use config::{Config, EditorScan, PackerConfig, ProjectScan, SetupError, UnityEditor, UnityProject};
pub use manifest::rewrite_manifest_text;
pub use pipeline::{Action, Fault, FaultKind, Layout, Pipeline};
pub use settings::rewrite_settings_text;
pub use template::TemplateIdentity;
