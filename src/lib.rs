//! Sorting photos and videos into year-month folders by the best capture
//! date that can be found for each of them, and sizing image borders.
pub mod border;
pub mod date;
pub mod file;
pub mod gather_photos;
pub mod get_created_at;
pub mod move_photos;
pub mod order;
pub mod progress;
