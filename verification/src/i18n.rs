//! Interface languages and the status texts the application shows.
//!
//! Every text the application displays is produced here, so that the
//! strings surrounding upload progress (counts, file names, error
//! details) are pinned down exactly.

use vstd::prelude::*;

use crate::decimal::dec_rep;
use crate::decimal::u64_to_string;

verus! {

/// An interface language.
#[derive(Clone, Copy, PartialEq, Eq, Hash, Debug, Structural)]
pub enum Language {
    Chinese,
    English,
}

impl Language {
    /// The two-letter code used in the configuration file.
    pub fn code(&self) -> (r: &'static str)
        ensures
            self == Language::Chinese ==> r@ == "zh"@,
            self == Language::English ==> r@ == "en"@,
    {
        match self {
            Language::Chinese => "zh",
            Language::English => "en",
        }
    }

    /// The language's name, written in itself.
    pub fn display_name(&self) -> (r: &'static str)
        ensures
            self == Language::Chinese ==> r@ == "中文"@,
            self == Language::English ==> r@ == "English"@,
    {
        match self {
            Language::Chinese => "中文",
            Language::English => "English",
        }
    }
}

impl Default for Language {
    fn default() -> (r: Self)
        ensures
            r == Language::English,
    {
        Language::English
    }
}

/// A key naming one translatable text. Parameterised texts carry their
/// insertion point as `{}` in the stored template; the corresponding
/// `I18n` method builds the finished string instead of the template.
#[derive(Clone, Copy, PartialEq, Eq, Hash, Debug, Structural)]
pub enum TextKey {
    HomeHeader,
    SettingsHeader,
    SelectUploadAccount,
    AddAccountInSettings,
    SelectFiles,
    Clear,
    StartUpload,
    Uploading,
    NoFilesSelected,
    FilesToUpload,
    Ready,
    SwitchedToUser,
    FilesSelected,
    SelectionCleared,
    UserApiKeyNotFound,
    ConfigFileNotFound,
    StartParallelUpload,
    UploadSuccess,
    UploadFailed,
    AllFilesUploaded,
    SelectPhotosOrVideos,
    ServerUrl,
    Save,
    Concurrency,
    Language,
    UserManagement,
    Username,
    Add,
    NoUsers,
    SetAsDefault,
    Delete,
    ManageYourSettings,
    SaveFailed,
    ServerUrlSaved,
    ConcurrencySaved,
    InvalidConcurrency,
    LanguageSaved,
    PleaseFillCompleteInfo,
    UserAdded,
    DefaultUserChanged,
    UserDeleted,
}

/// The text stored for `key` in `lang`.
pub open spec fn spec_text(lang: Language, key: TextKey) -> Seq<char> {
    match lang {
        Language::Chinese => match key {
            TextKey::HomeHeader => "上传照片 & 视频"@,
            TextKey::SettingsHeader => "设置"@,
            TextKey::SelectUploadAccount => "选择上传账号"@,
            TextKey::AddAccountInSettings => "请在设置中添加账号"@,
            TextKey::SelectFiles => "选择文件"@,
            TextKey::Clear => "清除"@,
            TextKey::StartUpload => "开始上传"@,
            TextKey::Uploading => "正在上传..."@,
            TextKey::NoFilesSelected => "未选择文件"@,
            TextKey::FilesToUpload => "待上传文件 ({}):"@,
            TextKey::Ready => "准备就绪"@,
            TextKey::SwitchedToUser => "已切换至用户: {}"@,
            TextKey::FilesSelected => "已选择 {} 个文件"@,
            TextKey::SelectionCleared => "已清除选择"@,
            TextKey::UserApiKeyNotFound => "未找到选定用户的 API Key"@,
            TextKey::ConfigFileNotFound => "未找到配置文件"@,
            TextKey::StartParallelUpload => "开始并行上传{}个文件..."@,
            TextKey::UploadSuccess => "[{}/{}] 成功上传: {}"@,
            TextKey::UploadFailed => "上传 {} 失败: {}"@,
            TextKey::AllFilesUploaded => "成功上传全部 {} 个文件！"@,
            TextKey::SelectPhotosOrVideos => "选择照片或视频"@,
            TextKey::ServerUrl => "服务器URL"@,
            TextKey::Save => "保存"@,
            TextKey::Concurrency => "并发数"@,
            TextKey::Language => "语言"@,
            TextKey::UserManagement => "用户管理"@,
            TextKey::Username => "用户名"@,
            TextKey::Add => "添加"@,
            TextKey::NoUsers => "暂无用户"@,
            TextKey::SetAsDefault => "默认"@,
            TextKey::Delete => "删除"@,
            TextKey::ManageYourSettings => "管理您的设置"@,
            TextKey::SaveFailed => "保存失败: {}"@,
            TextKey::ServerUrlSaved => "服务器URL已保存"@,
            TextKey::ConcurrencySaved => "并发设置已保存"@,
            TextKey::InvalidConcurrency => "并发数必须在 1-16 之间"@,
            TextKey::LanguageSaved => "语言设置已保存"@,
            TextKey::PleaseFillCompleteInfo => "请填写完整信息"@,
            TextKey::UserAdded => "用户已添加"@,
            TextKey::DefaultUserChanged => "默认用户已更改为: {}"@,
            TextKey::UserDeleted => "用户 {} 已删除"@,
        },
        Language::English => match key {
            TextKey::HomeHeader => "Upload Photos & Videos"@,
            TextKey::SettingsHeader => "Settings"@,
            TextKey::SelectUploadAccount => "Select Upload Account"@,
            TextKey::AddAccountInSettings => "Please add account in settings"@,
            TextKey::SelectFiles => "Select Files"@,
            TextKey::Clear => "Clear"@,
            TextKey::StartUpload => "Start Upload"@,
            TextKey::Uploading => "Uploading..."@,
            TextKey::NoFilesSelected => "No files selected"@,
            TextKey::FilesToUpload => "Files to upload ({}):"@,
            TextKey::Ready => "Ready"@,
            TextKey::SwitchedToUser => "Switched to user: {}"@,
            TextKey::FilesSelected => "{} files selected"@,
            TextKey::SelectionCleared => "Selection cleared"@,
            TextKey::UserApiKeyNotFound => "API Key not found for selected user"@,
            TextKey::ConfigFileNotFound => "Configuration file not found"@,
            TextKey::StartParallelUpload => "Starting upload of {} files ..."@,
            TextKey::UploadSuccess => "[{}/{}] Successfully uploaded: {}"@,
            TextKey::UploadFailed => "Failed to upload {}: {}"@,
            TextKey::AllFilesUploaded => "Successfully uploaded all {} files!"@,
            TextKey::SelectPhotosOrVideos => "Select photos or videos"@,
            TextKey::ServerUrl => "Server URL"@,
            TextKey::Save => "Save"@,
            TextKey::Concurrency => "Concurrency"@,
            TextKey::Language => "Language"@,
            TextKey::UserManagement => "User Management"@,
            TextKey::Username => "UserName"@,
            TextKey::Add => "Add"@,
            TextKey::NoUsers => "No users"@,
            TextKey::SetAsDefault => "Default"@,
            TextKey::Delete => "Delete"@,
            TextKey::ManageYourSettings => "Manage your settings"@,
            TextKey::SaveFailed => "Save failed: {}"@,
            TextKey::ServerUrlSaved => "Server URL saved"@,
            TextKey::ConcurrencySaved => "Concurrency settings saved"@,
            TextKey::InvalidConcurrency => "Concurrency must be between 1 and 16"@,
            TextKey::LanguageSaved => "Language settings saved"@,
            TextKey::PleaseFillCompleteInfo => "Please fill in complete information"@,
            TextKey::UserAdded => "User added"@,
            TextKey::DefaultUserChanged => "Default user changed to: {}"@,
            TextKey::UserDeleted => "User {} deleted"@,
        },
    }
}

/// The count of files still to upload, as a heading.
pub open spec fn spec_files_to_upload(lang: Language, count: nat) -> Seq<char> {
    match lang {
        Language::Chinese => "待上传文件 ("@ + dec_rep(count) + "):"@,
        Language::English => "Files to upload ("@ + dec_rep(count) + "):"@,
    }
}

/// The confirmation shown after switching the upload account.
pub open spec fn spec_switched_to_user(lang: Language, username: Seq<char>) -> Seq<char> {
    match lang {
        Language::Chinese => "已切换至用户: "@ + username,
        Language::English => "Switched to user: "@ + username,
    }
}

/// The count of files picked in the selection dialog.
pub open spec fn spec_files_selected(lang: Language, count: nat) -> Seq<char> {
    match lang {
        Language::Chinese => "已选择 "@ + dec_rep(count) + " 个文件"@,
        Language::English => dec_rep(count) + " files selected"@,
    }
}

/// The announcement that a batch of `total` files is starting.
pub open spec fn spec_start_parallel_upload(lang: Language, total: nat) -> Seq<char> {
    match lang {
        Language::Chinese => "开始并行上传"@ + dec_rep(total) + "个文件..."@,
        Language::English => "Starting upload of "@ + dec_rep(total) + " files ..."@,
    }
}

/// The per-file progress line: `current` of `total` done, last `filename`.
pub open spec fn spec_upload_success(
    lang: Language,
    current: nat,
    total: nat,
    filename: Seq<char>,
) -> Seq<char> {
    match lang {
        Language::Chinese => "["@ + dec_rep(current) + "/"@ + dec_rep(total) + "] 成功上传: "@
            + filename,
        Language::English => "["@ + dec_rep(current) + "/"@ + dec_rep(total)
            + "] Successfully uploaded: "@ + filename,
    }
}

/// The line naming the failing file and the error detail.
pub open spec fn spec_upload_failed(
    lang: Language,
    filename: Seq<char>,
    error: Seq<char>,
) -> Seq<char> {
    match lang {
        Language::Chinese => "上传 "@ + filename + " 失败: "@ + error,
        Language::English => "Failed to upload "@ + filename + ": "@ + error,
    }
}

/// The all-succeeded summary for a batch of `total` files.
pub open spec fn spec_all_files_uploaded(lang: Language, total: nat) -> Seq<char> {
    match lang {
        Language::Chinese => "成功上传全部 "@ + dec_rep(total) + " 个文件！"@,
        Language::English => "Successfully uploaded all "@ + dec_rep(total) + " files!"@,
    }
}

/// The line shown when saving the configuration failed.
pub open spec fn spec_save_failed(lang: Language, error: Seq<char>) -> Seq<char> {
    match lang {
        Language::Chinese => "保存失败: "@ + error,
        Language::English => "Save failed: "@ + error,
    }
}

/// The confirmation that the default account changed.
pub open spec fn spec_default_user_changed(lang: Language, username: Seq<char>) -> Seq<char> {
    match lang {
        Language::Chinese => "默认用户已更改为: "@ + username,
        Language::English => "Default user changed to: "@ + username,
    }
}

/// The confirmation that an account was removed.
pub open spec fn spec_user_deleted(lang: Language, username: Seq<char>) -> Seq<char> {
    match lang {
        Language::Chinese => "用户 "@ + username + " 已删除"@,
        Language::English => "User "@ + username + " deleted"@,
    }
}

/// A text provider bound to one language.
pub struct I18n {
    pub language: Language,
}

impl I18n {
    pub fn new(language: Language) -> (r: Self)
        ensures
            r.language == language,
    {
        I18n { language }
    }

    /// The stored text for `key` in this provider's language.
    pub fn get(&self, key: TextKey) -> (r: &'static str)
        ensures
            r@ == spec_text(self.language, key),
    {
        match self.language {
            Language::Chinese => match key {
                TextKey::HomeHeader => "上传照片 & 视频",
                TextKey::SettingsHeader => "设置",
                TextKey::SelectUploadAccount => "选择上传账号",
                TextKey::AddAccountInSettings => "请在设置中添加账号",
                TextKey::SelectFiles => "选择文件",
                TextKey::Clear => "清除",
                TextKey::StartUpload => "开始上传",
                TextKey::Uploading => "正在上传...",
                TextKey::NoFilesSelected => "未选择文件",
                TextKey::FilesToUpload => "待上传文件 ({}):",
                TextKey::Ready => "准备就绪",
                TextKey::SwitchedToUser => "已切换至用户: {}",
                TextKey::FilesSelected => "已选择 {} 个文件",
                TextKey::SelectionCleared => "已清除选择",
                TextKey::UserApiKeyNotFound => "未找到选定用户的 API Key",
                TextKey::ConfigFileNotFound => "未找到配置文件",
                TextKey::StartParallelUpload => "开始并行上传{}个文件...",
                TextKey::UploadSuccess => "[{}/{}] 成功上传: {}",
                TextKey::UploadFailed => "上传 {} 失败: {}",
                TextKey::AllFilesUploaded => "成功上传全部 {} 个文件！",
                TextKey::SelectPhotosOrVideos => "选择照片或视频",
                TextKey::ServerUrl => "服务器URL",
                TextKey::Save => "保存",
                TextKey::Concurrency => "并发数",
                TextKey::Language => "语言",
                TextKey::UserManagement => "用户管理",
                TextKey::Username => "用户名",
                TextKey::Add => "添加",
                TextKey::NoUsers => "暂无用户",
                TextKey::SetAsDefault => "默认",
                TextKey::Delete => "删除",
                TextKey::ManageYourSettings => "管理您的设置",
                TextKey::SaveFailed => "保存失败: {}",
                TextKey::ServerUrlSaved => "服务器URL已保存",
                TextKey::ConcurrencySaved => "并发设置已保存",
                TextKey::InvalidConcurrency => "并发数必须在 1-16 之间",
                TextKey::LanguageSaved => "语言设置已保存",
                TextKey::PleaseFillCompleteInfo => "请填写完整信息",
                TextKey::UserAdded => "用户已添加",
                TextKey::DefaultUserChanged => "默认用户已更改为: {}",
                TextKey::UserDeleted => "用户 {} 已删除",
            },
            Language::English => match key {
                TextKey::HomeHeader => "Upload Photos & Videos",
                TextKey::SettingsHeader => "Settings",
                TextKey::SelectUploadAccount => "Select Upload Account",
                TextKey::AddAccountInSettings => "Please add account in settings",
                TextKey::SelectFiles => "Select Files",
                TextKey::Clear => "Clear",
                TextKey::StartUpload => "Start Upload",
                TextKey::Uploading => "Uploading...",
                TextKey::NoFilesSelected => "No files selected",
                TextKey::FilesToUpload => "Files to upload ({}):",
                TextKey::Ready => "Ready",
                TextKey::SwitchedToUser => "Switched to user: {}",
                TextKey::FilesSelected => "{} files selected",
                TextKey::SelectionCleared => "Selection cleared",
                TextKey::UserApiKeyNotFound => "API Key not found for selected user",
                TextKey::ConfigFileNotFound => "Configuration file not found",
                TextKey::StartParallelUpload => "Starting upload of {} files ...",
                TextKey::UploadSuccess => "[{}/{}] Successfully uploaded: {}",
                TextKey::UploadFailed => "Failed to upload {}: {}",
                TextKey::AllFilesUploaded => "Successfully uploaded all {} files!",
                TextKey::SelectPhotosOrVideos => "Select photos or videos",
                TextKey::ServerUrl => "Server URL",
                TextKey::Save => "Save",
                TextKey::Concurrency => "Concurrency",
                TextKey::Language => "Language",
                TextKey::UserManagement => "User Management",
                TextKey::Username => "UserName",
                TextKey::Add => "Add",
                TextKey::NoUsers => "No users",
                TextKey::SetAsDefault => "Default",
                TextKey::Delete => "Delete",
                TextKey::ManageYourSettings => "Manage your settings",
                TextKey::SaveFailed => "Save failed: {}",
                TextKey::ServerUrlSaved => "Server URL saved",
                TextKey::ConcurrencySaved => "Concurrency settings saved",
                TextKey::InvalidConcurrency => "Concurrency must be between 1 and 16",
                TextKey::LanguageSaved => "Language settings saved",
                TextKey::PleaseFillCompleteInfo => "Please fill in complete information",
                TextKey::UserAdded => "User added",
                TextKey::DefaultUserChanged => "Default user changed to: {}",
                TextKey::UserDeleted => "User {} deleted",
            },
        }
    }

    pub fn home_header(&self) -> (r: &'static str)
        ensures
            r@ == spec_text(self.language, TextKey::HomeHeader),
    {
        self.get(TextKey::HomeHeader)
    }

    pub fn settings_header(&self) -> (r: &'static str)
        ensures
            r@ == spec_text(self.language, TextKey::SettingsHeader),
    {
        self.get(TextKey::SettingsHeader)
    }

    pub fn select_upload_account(&self) -> (r: &'static str)
        ensures
            r@ == spec_text(self.language, TextKey::SelectUploadAccount),
    {
        self.get(TextKey::SelectUploadAccount)
    }

    pub fn add_account_in_settings(&self) -> (r: &'static str)
        ensures
            r@ == spec_text(self.language, TextKey::AddAccountInSettings),
    {
        self.get(TextKey::AddAccountInSettings)
    }

    pub fn select_files(&self) -> (r: &'static str)
        ensures
            r@ == spec_text(self.language, TextKey::SelectFiles),
    {
        self.get(TextKey::SelectFiles)
    }

    pub fn clear(&self) -> (r: &'static str)
        ensures
            r@ == spec_text(self.language, TextKey::Clear),
    {
        self.get(TextKey::Clear)
    }

    pub fn start_upload(&self) -> (r: &'static str)
        ensures
            r@ == spec_text(self.language, TextKey::StartUpload),
    {
        self.get(TextKey::StartUpload)
    }

    pub fn uploading(&self) -> (r: &'static str)
        ensures
            r@ == spec_text(self.language, TextKey::Uploading),
    {
        self.get(TextKey::Uploading)
    }

    pub fn no_files_selected(&self) -> (r: &'static str)
        ensures
            r@ == spec_text(self.language, TextKey::NoFilesSelected),
    {
        self.get(TextKey::NoFilesSelected)
    }

    pub fn files_to_upload(&self, count: usize) -> (r: String)
        ensures
            r@ == spec_files_to_upload(self.language, count as nat),
    {
        let mut s = String::from_str(
            match self.language {
                Language::Chinese => "待上传文件 (",
                Language::English => "Files to upload (",
            },
        );
        let num = u64_to_string(count as u64);
        s.append(num.as_str());
        s.append("):");
        s
    }

    pub fn ready(&self) -> (r: &'static str)
        ensures
            r@ == spec_text(self.language, TextKey::Ready),
    {
        self.get(TextKey::Ready)
    }

    pub fn switched_to_user(&self, username: &str) -> (r: String)
        ensures
            r@ == spec_switched_to_user(self.language, username@),
    {
        let mut s = String::from_str(
            match self.language {
                Language::Chinese => "已切换至用户: ",
                Language::English => "Switched to user: ",
            },
        );
        s.append(username);
        s
    }

    pub fn files_selected(&self, count: usize) -> (r: String)
        ensures
            r@ == spec_files_selected(self.language, count as nat),
    {
        let num = u64_to_string(count as u64);
        match self.language {
            Language::Chinese => {
                let mut s = String::from_str("已选择 ");
                s.append(num.as_str());
                s.append(" 个文件");
                s
            },
            Language::English => {
                let mut s = num;
                s.append(" files selected");
                s
            },
        }
    }

    pub fn selection_cleared(&self) -> (r: &'static str)
        ensures
            r@ == spec_text(self.language, TextKey::SelectionCleared),
    {
        self.get(TextKey::SelectionCleared)
    }

    pub fn user_api_key_not_found(&self) -> (r: &'static str)
        ensures
            r@ == spec_text(self.language, TextKey::UserApiKeyNotFound),
    {
        self.get(TextKey::UserApiKeyNotFound)
    }

    pub fn config_file_not_found(&self) -> (r: &'static str)
        ensures
            r@ == spec_text(self.language, TextKey::ConfigFileNotFound),
    {
        self.get(TextKey::ConfigFileNotFound)
    }

    pub fn start_parallel_upload(&self, total: usize) -> (r: String)
        ensures
            r@ == spec_start_parallel_upload(self.language, total as nat),
    {
        let num = u64_to_string(total as u64);
        match self.language {
            Language::Chinese => {
                let mut s = String::from_str("开始并行上传");
                s.append(num.as_str());
                s.append("个文件...");
                s
            },
            Language::English => {
                let mut s = String::from_str("Starting upload of ");
                s.append(num.as_str());
                s.append(" files ...");
                s
            },
        }
    }

    pub fn upload_success(&self, current: usize, total: usize, filename: &str) -> (r: String)
        ensures
            r@ == spec_upload_success(self.language, current as nat, total as nat, filename@),
    {
        let cur = u64_to_string(current as u64);
        let tot = u64_to_string(total as u64);
        let mut s = String::from_str("[");
        s.append(cur.as_str());
        s.append("/");
        s.append(tot.as_str());
        s.append(
            match self.language {
                Language::Chinese => "] 成功上传: ",
                Language::English => "] Successfully uploaded: ",
            },
        );
        s.append(filename);
        s
    }

    pub fn upload_failed(&self, filename: &str, error: &str) -> (r: String)
        ensures
            r@ == spec_upload_failed(self.language, filename@, error@),
    {
        match self.language {
            Language::Chinese => {
                let mut s = String::from_str("上传 ");
                s.append(filename);
                s.append(" 失败: ");
                s.append(error);
                s
            },
            Language::English => {
                let mut s = String::from_str("Failed to upload ");
                s.append(filename);
                s.append(": ");
                s.append(error);
                s
            },
        }
    }

    pub fn all_files_uploaded(&self, total: usize) -> (r: String)
        ensures
            r@ == spec_all_files_uploaded(self.language, total as nat),
    {
        let num = u64_to_string(total as u64);
        match self.language {
            Language::Chinese => {
                let mut s = String::from_str("成功上传全部 ");
                s.append(num.as_str());
                s.append(" 个文件！");
                s
            },
            Language::English => {
                let mut s = String::from_str("Successfully uploaded all ");
                s.append(num.as_str());
                s.append(" files!");
                s
            },
        }
    }

    pub fn select_photos_or_videos(&self) -> (r: &'static str)
        ensures
            r@ == spec_text(self.language, TextKey::SelectPhotosOrVideos),
    {
        self.get(TextKey::SelectPhotosOrVideos)
    }

    pub fn server_url(&self) -> (r: &'static str)
        ensures
            r@ == spec_text(self.language, TextKey::ServerUrl),
    {
        self.get(TextKey::ServerUrl)
    }

    pub fn save(&self) -> (r: &'static str)
        ensures
            r@ == spec_text(self.language, TextKey::Save),
    {
        self.get(TextKey::Save)
    }

    pub fn concurrency(&self) -> (r: &'static str)
        ensures
            r@ == spec_text(self.language, TextKey::Concurrency),
    {
        self.get(TextKey::Concurrency)
    }

    pub fn language(&self) -> (r: &'static str)
        ensures
            r@ == spec_text(self.language, TextKey::Language),
    {
        self.get(TextKey::Language)
    }

    pub fn user_management(&self) -> (r: &'static str)
        ensures
            r@ == spec_text(self.language, TextKey::UserManagement),
    {
        self.get(TextKey::UserManagement)
    }

    pub fn username(&self) -> (r: &'static str)
        ensures
            r@ == spec_text(self.language, TextKey::Username),
    {
        self.get(TextKey::Username)
    }

    pub fn add(&self) -> (r: &'static str)
        ensures
            r@ == spec_text(self.language, TextKey::Add),
    {
        self.get(TextKey::Add)
    }

    pub fn no_users(&self) -> (r: &'static str)
        ensures
            r@ == spec_text(self.language, TextKey::NoUsers),
    {
        self.get(TextKey::NoUsers)
    }

    pub fn set_as_default(&self) -> (r: &'static str)
        ensures
            r@ == spec_text(self.language, TextKey::SetAsDefault),
    {
        self.get(TextKey::SetAsDefault)
    }

    pub fn delete(&self) -> (r: &'static str)
        ensures
            r@ == spec_text(self.language, TextKey::Delete),
    {
        self.get(TextKey::Delete)
    }

    pub fn manage_your_settings(&self) -> (r: &'static str)
        ensures
            r@ == spec_text(self.language, TextKey::ManageYourSettings),
    {
        self.get(TextKey::ManageYourSettings)
    }

    pub fn save_failed(&self, error: &str) -> (r: String)
        ensures
            r@ == spec_save_failed(self.language, error@),
    {
        let mut s = String::from_str(
            match self.language {
                Language::Chinese => "保存失败: ",
                Language::English => "Save failed: ",
            },
        );
        s.append(error);
        s
    }

    pub fn server_url_saved(&self) -> (r: &'static str)
        ensures
            r@ == spec_text(self.language, TextKey::ServerUrlSaved),
    {
        self.get(TextKey::ServerUrlSaved)
    }

    pub fn concurrency_saved(&self) -> (r: &'static str)
        ensures
            r@ == spec_text(self.language, TextKey::ConcurrencySaved),
    {
        self.get(TextKey::ConcurrencySaved)
    }

    pub fn invalid_concurrency(&self) -> (r: &'static str)
        ensures
            r@ == spec_text(self.language, TextKey::InvalidConcurrency),
    {
        self.get(TextKey::InvalidConcurrency)
    }

    pub fn language_saved(&self) -> (r: &'static str)
        ensures
            r@ == spec_text(self.language, TextKey::LanguageSaved),
    {
        self.get(TextKey::LanguageSaved)
    }

    pub fn please_fill_complete_info(&self) -> (r: &'static str)
        ensures
            r@ == spec_text(self.language, TextKey::PleaseFillCompleteInfo),
    {
        self.get(TextKey::PleaseFillCompleteInfo)
    }

    pub fn user_added(&self) -> (r: &'static str)
        ensures
            r@ == spec_text(self.language, TextKey::UserAdded),
    {
        self.get(TextKey::UserAdded)
    }

    pub fn default_user_changed(&self, username: &str) -> (r: String)
        ensures
            r@ == spec_default_user_changed(self.language, username@),
    {
        let mut s = String::from_str(
            match self.language {
                Language::Chinese => "默认用户已更改为: ",
                Language::English => "Default user changed to: ",
            },
        );
        s.append(username);
        s
    }

    pub fn user_deleted(&self, username: &str) -> (r: String)
        ensures
            r@ == spec_user_deleted(self.language, username@),
    {
        match self.language {
            Language::Chinese => {
                let mut s = String::from_str("用户 ");
                s.append(username);
                s.append(" 已删除");
                s
            },
            Language::English => {
                let mut s = String::from_str("User ");
                s.append(username);
                s.append(" deleted");
                s
            },
        }
    }
}

} // verus!
