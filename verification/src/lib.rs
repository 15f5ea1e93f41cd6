pub mod config;
pub mod download;
pub mod error;
pub mod metadata;
pub mod models;
pub mod options;
pub mod pipeline;
pub mod strutil;
pub mod video_id;

pub use config::RawCliArgs;
pub use download::{DownloadAction, DownloadEvent, DownloadPhase, StreamingDownloader};
pub use error::YouDlError;
pub use metadata::{decode_player_response, metadata_url};
pub use models::{PlayerResponse, StreamFormat};
pub use options::{DownloadOption, DownloadOptions};
pub use pipeline::{Pipeline, PipelineAction, PipelineEvent, PipelineState};
pub use video_id::extract_video_id;
