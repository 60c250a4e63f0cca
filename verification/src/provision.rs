use vstd::prelude::*;
use vstd::string::StringExecFns;
use crate::enrich::{dec_digits, u32_to_string};

verus! {

/// Where the one supported inference model is downloaded from.
pub fn model_url() -> (r: &'static str)
    ensures
        r@ == "https://huggingface.co/ggerganov/whisper.cpp/resolve/main/ggml-large-v3-turbo-q8_0.bin"@,
{
    "https://huggingface.co/ggerganov/whisper.cpp/resolve/main/ggml-large-v3-turbo-q8_0.bin"
}

/// The file name the model is stored under in the data directory.
pub fn model_filename() -> (r: &'static str)
    ensures
        r@ == "ggml-large-v3-turbo-q8_0.bin"@,
{
    "ggml-large-v3-turbo-q8_0.bin"
}

/// Why provisioning the model failed.  Each failure is recoverable by
/// retrying; none is fatal to the process.
pub enum ProvisioningError {
    /// The download could not be fetched at all.
    Network { detail: String },
    /// The server answered with a non-success status.
    ServerStatus { code: u16 },
    /// The model directory could not be created.
    CreateDir { detail: String },
    /// The model file could not be created.
    CreateFile { detail: String },
    /// The fetched bytes could not be written out in full.
    WriteFile { detail: String },
}

impl ProvisioningError {
    /// A human-actionable description, naming the likely remedy.
    pub fn message(&self) -> (r: String)
        ensures
            match self {
                ProvisioningError::Network { detail } => r@ ==
                    "Failed to download Whisper model. Please check your internet connection. Error: "@
                    + detail@,
                ProvisioningError::ServerStatus { code } => r@ ==
                    "Failed to download Whisper model. Server returned status: "@
                    + dec_digits(*code as int) + ". Please try again later."@,
                ProvisioningError::CreateDir { detail } => r@ ==
                    "Failed to create model directory: "@ + detail@
                    + ". Please check write permissions."@,
                ProvisioningError::CreateFile { detail } => r@ ==
                    "Failed to create model file. Please check write permissions. Error: "@
                    + detail@,
                ProvisioningError::WriteFile { detail } => r@ ==
                    "Failed to save model file. Please ensure you have enough disk space (~1.5GB). Error: "@
                    + detail@,
            },
    {
        match self {
            ProvisioningError::Network { detail } => {
                let mut r = String::from_str(
                    "Failed to download Whisper model. Please check your internet connection. Error: ",
                );
                r.append(detail.as_str());
                r
            },
            ProvisioningError::ServerStatus { code } => {
                let mut r = String::from_str(
                    "Failed to download Whisper model. Server returned status: ",
                );
                let d = u32_to_string(*code as u32);
                r.append(d.as_str());
                r.append(". Please try again later.");
                r
            },
            ProvisioningError::CreateDir { detail } => {
                let mut r = String::from_str("Failed to create model directory: ");
                r.append(detail.as_str());
                r.append(". Please check write permissions.");
                r
            },
            ProvisioningError::CreateFile { detail } => {
                let mut r = String::from_str(
                    "Failed to create model file. Please check write permissions. Error: ",
                );
                r.append(detail.as_str());
                r
            },
            ProvisioningError::WriteFile { detail } => {
                let mut r = String::from_str(
                    "Failed to save model file. Please ensure you have enough disk space (~1.5GB). Error: ",
                );
                r.append(detail.as_str());
                r
            },
        }
    }
}

/// What `ensure_present` must do for the model file.
#[derive(Clone, Copy, PartialEq, Eq, Structural, Debug)]
pub enum ProvisionPlan {
    /// The file already exists: nothing to do.
    AlreadyPresent,
    /// Download to a temporary path, then rename into place, so a failed
    /// download never leaves a file that a later check would take for the
    /// model.
    DownloadThenRename,
}

/// Decides the provisioning work from whether the model file exists.
pub fn plan_provisioning(model_file_exists: bool) -> (p: ProvisionPlan)
    ensures
        model_file_exists ==> p == ProvisionPlan::AlreadyPresent,
        !model_file_exists ==> p == ProvisionPlan::DownloadThenRename,
{
    if model_file_exists {
        ProvisionPlan::AlreadyPresent
    } else {
        ProvisionPlan::DownloadThenRename
    }
}

/// The temporary path a download is written to before the rename into
/// place.
pub fn temp_download_path(path: &str) -> (r: String)
    ensures
        r@ == path@ + ".part"@,
{
    let mut r = path.to_owned();
    r.append(".part");
    r
}

/// Judges the download server's answer: success statuses accept the body,
/// anything else is a server refusal carrying the status.
pub fn check_download_status(status: u16) -> (r: Result<(), ProvisioningError>)
    ensures
        200 <= status < 300 <==> r is Ok,
        !(200 <= status < 300) ==> (r matches Err(ProvisioningError::ServerStatus { code })
            && code == status),
{
    if 200 <= status && status < 300 {
        Ok(())
    } else {
        Err(ProvisioningError::ServerStatus { code: status })
    }
}

} // verus!
