use rimmich::i18n::{I18n, Language, TextKey};

#[test]
fn language_codes_and_names() {
    assert_eq!(Language::Chinese.code(), "zh");
    assert_eq!(Language::English.code(), "en");
    assert_eq!(Language::Chinese.display_name(), "中文");
    assert_eq!(Language::English.display_name(), "English");
    assert_eq!(Language::default(), Language::English);
}

#[test]
fn fixed_texts_in_both_languages() {
    let en = I18n::new(Language::English);
    let zh = I18n::new(Language::Chinese);
    assert_eq!(en.language, Language::English);
    assert_eq!(zh.language, Language::Chinese);
    assert_eq!(en.home_header(), "Upload Photos & Videos");
    assert_eq!(zh.home_header(), "上传照片 & 视频");
    assert_eq!(en.settings_header(), "Settings");
    assert_eq!(zh.settings_header(), "设置");
    assert_eq!(en.ready(), "Ready");
    assert_eq!(zh.ready(), "准备就绪");
    assert_eq!(en.select_files(), "Select Files");
    assert_eq!(en.clear(), "Clear");
    assert_eq!(en.start_upload(), "Start Upload");
    assert_eq!(en.uploading(), "Uploading...");
    assert_eq!(en.no_files_selected(), "No files selected");
    assert_eq!(en.selection_cleared(), "Selection cleared");
    assert_eq!(en.user_api_key_not_found(), "API Key not found for selected user");
    assert_eq!(zh.user_api_key_not_found(), "未找到选定用户的 API Key");
    assert_eq!(en.config_file_not_found(), "Configuration file not found");
    assert_eq!(en.select_photos_or_videos(), "Select photos or videos");
    assert_eq!(en.server_url(), "Server URL");
    assert_eq!(en.save(), "Save");
    assert_eq!(en.concurrency(), "Concurrency");
    assert_eq!(en.language(), "Language");
    assert_eq!(en.user_management(), "User Management");
    assert_eq!(en.username(), "UserName");
    assert_eq!(en.add(), "Add");
    assert_eq!(en.no_users(), "No users");
    assert_eq!(en.set_as_default(), "Default");
    assert_eq!(en.delete(), "Delete");
    assert_eq!(en.manage_your_settings(), "Manage your settings");
    assert_eq!(en.server_url_saved(), "Server URL saved");
    assert_eq!(en.concurrency_saved(), "Concurrency settings saved");
    assert_eq!(en.invalid_concurrency(), "Concurrency must be between 1 and 16");
    assert_eq!(zh.invalid_concurrency(), "并发数必须在 1-16 之间");
    assert_eq!(en.language_saved(), "Language settings saved");
    assert_eq!(en.please_fill_complete_info(), "Please fill in complete information");
    assert_eq!(en.user_added(), "User added");
    assert_eq!(en.select_upload_account(), "Select Upload Account");
    assert_eq!(en.add_account_in_settings(), "Please add account in settings");
}

#[test]
fn stored_templates_by_key() {
    let en = I18n::new(Language::English);
    let zh = I18n::new(Language::Chinese);
    assert_eq!(en.get(TextKey::FilesToUpload), "Files to upload ({}):");
    assert_eq!(zh.get(TextKey::FilesToUpload), "待上传文件 ({}):");
    assert_eq!(en.get(TextKey::UploadSuccess), "[{}/{}] Successfully uploaded: {}");
    assert_eq!(zh.get(TextKey::UserDeleted), "用户 {} 已删除");
}

#[test]
fn counted_texts_fill_in_numbers() {
    let en = I18n::new(Language::English);
    let zh = I18n::new(Language::Chinese);
    assert_eq!(en.files_to_upload(3), "Files to upload (3):");
    assert_eq!(zh.files_to_upload(3), "待上传文件 (3):");
    assert_eq!(en.files_selected(12), "12 files selected");
    assert_eq!(zh.files_selected(12), "已选择 12 个文件");
    assert_eq!(en.start_parallel_upload(5), "Starting upload of 5 files ...");
    assert_eq!(zh.start_parallel_upload(5), "开始并行上传5个文件...");
    assert_eq!(en.all_files_uploaded(7), "Successfully uploaded all 7 files!");
    assert_eq!(zh.all_files_uploaded(7), "成功上传全部 7 个文件！");
}

#[test]
fn progress_and_error_texts() {
    let en = I18n::new(Language::English);
    let zh = I18n::new(Language::Chinese);
    assert_eq!(
        en.upload_success(2, 5, "a.jpg"),
        "[2/5] Successfully uploaded: a.jpg"
    );
    assert_eq!(zh.upload_success(2, 5, "a.jpg"), "[2/5] 成功上传: a.jpg");
    assert_eq!(
        en.upload_failed("a.jpg", "Upload failed with status 401: Unauthorized"),
        "Failed to upload a.jpg: Upload failed with status 401: Unauthorized"
    );
    assert_eq!(zh.upload_failed("a.jpg", "x"), "上传 a.jpg 失败: x");
    assert_eq!(en.save_failed("disk full"), "Save failed: disk full");
    assert_eq!(zh.save_failed("disk full"), "保存失败: disk full");
    assert_eq!(en.switched_to_user("ana"), "Switched to user: ana");
    assert_eq!(zh.switched_to_user("ana"), "已切换至用户: ana");
    assert_eq!(en.default_user_changed("bo"), "Default user changed to: bo");
    assert_eq!(zh.default_user_changed("bo"), "默认用户已更改为: bo");
    assert_eq!(en.user_deleted("bo"), "User bo deleted");
    assert_eq!(zh.user_deleted("bo"), "用户 bo 已删除");
}
