pub mod clock;
pub mod error;
pub mod handle;
pub mod predicate;
pub mod table;
pub mod upsert;

pub use clock::chrono_now_ms;
pub use error::LanceError;
pub use handle::LanceDBHandle;
