pub mod count_urls;
pub mod count_time_slots;
pub mod count_daily;
pub mod diffusion;
pub mod extract_urls;
pub mod file_metadata;
pub mod list_extensions;
pub mod message_stats;
pub mod shares;
pub mod text_stats;
pub mod user_interactions;
