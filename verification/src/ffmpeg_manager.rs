//! Progress reports of the automatic ffmpeg download.
use std::path::PathBuf;
use vstd::prelude::*;

verus! {

/// A message from the download worker.
#[derive(Debug, Clone)]
pub enum DlMsg {
    Downloading,
    Extracting,
    /// ffmpeg is in place at this path.
    Done(PathBuf),
    /// The download failed, with this reason.
    Failed(String),
}

/// A download message, with its text as characters.
pub enum DlMsgView {
    Downloading,
    Extracting,
    Done(PathBuf),
    Failed(Seq<char>),
}

impl View for DlMsg {
    type V = DlMsgView;

    open spec fn view(&self) -> DlMsgView {
        match self {
            DlMsg::Downloading => DlMsgView::Downloading,
            DlMsg::Extracting => DlMsgView::Extracting,
            DlMsg::Done(p) => DlMsgView::Done(*p),
            DlMsg::Failed(e) => DlMsgView::Failed(e@),
        }
    }
}

} // verus!
