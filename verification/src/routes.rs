//! The route handlers and the router that leads to them.

pub mod diary;
pub mod health_check;
pub mod info;
pub mod not_found;
pub mod router;

pub use diary::{
    acknowledge, diary_album_put, diary_album_put_at, diary_delete, diary_get, diary_post,
    diary_post_at, diary_thoughts_put, diary_thoughts_put_at, FormData, UpdatedAlbumFormData,
    UpdatedThoughtsFormData,
};
pub use health_check::health_check;
pub use info::info;
pub use not_found::not_found;
pub use router::{route, Route};
