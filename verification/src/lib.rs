//! Verified core of a bounded-concurrency batch uploader for a media
//! asset server: permit-bounded scheduling, fail-fast aggregation of
//! per-file outcomes, MIME sniffing, upload request assembly, and the
//! status texts shown while a batch runs.

pub mod batch;
pub mod config;
pub mod decimal;
pub mod i18n;
pub mod limiter;
pub mod mime;
pub mod upload;

pub use batch::BatchFile;
pub use batch::BatchJob;
pub use batch::BatchResult;
pub use batch::BatchRun;
pub use batch::BatchStatus;
pub use batch::ConfigError;
pub use batch::UploadRequest;
pub use batch::run_batch;
pub use batch::validate_concurrency;
pub use config::AppConfig;
pub use config::UserConfig;
pub use config::UserEntry;
pub use decimal::u64_to_string;
pub use i18n::I18n;
pub use i18n::Language;
pub use i18n::TextKey;
pub use limiter::PermitPool;
pub use mime::sniff_mime;
pub use upload::UploadForm;
pub use upload::UploadOutcome;
pub use upload::WireResult;
