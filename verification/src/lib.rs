pub mod audio;
pub mod db;
pub mod logui;
pub mod notifications;
pub mod plugin;
