use netpulse::models::plan::{PlanItemInput, TaskPlanItem};
use netpulse::models::task::{TaskStatus, TaskType, TestConfig};
use netpulse::services::auth::AuthService;
use netpulse::services::cookie_crypto::{decrypt_payload, encrypt_payload, seal_payload_with};
use netpulse::services::plan::{
    check_plan_request, compute_next_run, merged_item_options, plan_access, plan_is_due, plan_run_deletion,
    prepare_plan_item, prepare_plan_run_item, run_is_complete, run_now_check, PlanAction, PlanService,
    RunDeletion,
};
use netpulse::services::video_cookie::{
    allowed_domains, backup_platform, is_allowed_domain, normalize_domain, parse_domain_summary,
    platform_or_error, validate_cookie_payload, CookieItem, CookiePayload, VideoCookieBackup,
    VideoCookieService,
};

fn cookie(name: &str, domain: &str) -> CookieItem {
    CookieItem::Object { name: Some(name.into()), domain: Some(domain.into()), value_is_string: true }
}

#[test]
fn platforms_are_named_and_recognised() {
    assert_eq!(VideoCookieService::supported_platforms().len(), 7);
    assert_eq!(VideoCookieService::normalize_platform("  Tencent "), Some("qq"));
    assert_eq!(VideoCookieService::normalize_platform("youtu.be"), Some("youtube"));
    assert_eq!(VideoCookieService::normalize_platform("netflix"), None);
    assert_eq!(VideoCookieService::platform_for_url("https://WWW.YOUTUBE.COM/watch?v=1"), Some("youtube"));
    assert_eq!(VideoCookieService::platform_for_url("https://v.qq.com/x"), Some("qq"));
    assert_eq!(VideoCookieService::platform_for_url("https://qq.com/x"), None);
    assert_eq!(platform_or_error("mango"), Ok("mgtv"));
    assert_eq!(platform_or_error("foo"), Err("不支持的平台: foo".to_string()));
}

#[test]
fn domains_are_normalised_and_checked() {
    assert_eq!(normalize_domain("  ..WWW.Bilibili.COM. "), "www.bilibili.com");
    assert_eq!(normalize_domain(&normalize_domain(".Sohu.com")), normalize_domain(".Sohu.com"));
    let yt = allowed_domains("youtube");
    assert_eq!(yt, vec!["youtube.com", "google.com", "googleusercontent.com"]);
    assert!(is_allowed_domain("accounts.google.com", &yt));
    assert!(is_allowed_domain("youtube.com", &yt));
    assert!(!is_allowed_domain("notyoutube.com", &yt));
    assert!(allowed_domains("netflix").is_empty());
}

#[test]
fn cookie_lists_are_validated() {
    let ok = CookiePayload::Items(vec![
        cookie("SID", ".youtube.com"),
        cookie("A", "accounts.Google.com"),
        cookie("B", "youtube.com"),
    ]);
    let (count, domains) = validate_cookie_payload("youtube", &ok).unwrap();
    assert_eq!(count, 3);
    assert_eq!(domains, vec!["accounts.google.com".to_string(), "youtube.com".to_string()]);
    assert_eq!(validate_cookie_payload("youtube", &CookiePayload::NotArray), Err("Cookie JSON 必须是数组".into()));
    assert_eq!(validate_cookie_payload("youtube", &CookiePayload::Items(vec![])), Err("Cookie JSON 不能为空".into()));
    assert_eq!(
        validate_cookie_payload("youtube", &CookiePayload::Items(vec![CookieItem::NotObject])),
        Err("Cookie 数组中包含非对象项".into())
    );
    let missing = CookiePayload::Items(vec![CookieItem::Object { name: Some("a".into()), domain: None, value_is_string: true }]);
    assert_eq!(
        validate_cookie_payload("youtube", &missing),
        Err("Cookie 必须包含 name/domain 字段，value 必须是字符串".into())
    );
    let foreign = CookiePayload::Items(vec![cookie("a", "youtube.com"), cookie("b", ".Evil.com")]);
    assert_eq!(validate_cookie_payload("youtube", &foreign), Err("Cookie 域名不属于平台 youtube: .Evil.com".into()));
}

#[test]
fn backups_and_summaries() {
    let b = VideoCookieBackup {
        version: 2,
        platform: "qq".into(),
        encrypted_payload: String::new(),
        cookie_count: 0,
        domains: vec![],
        updated_at: String::new(),
    };
    assert_eq!(backup_platform(&b), Err("不支持的 Cookie 备份版本: 2".to_string()));
    let b1 = VideoCookieBackup { version: 1, ..b };
    assert_eq!(backup_platform(&b1), Ok("qq"));
    assert_eq!(parse_domain_summary(r#"["a.com","b.com"]"#), vec!["a.com".to_string(), "b.com".to_string()]);
    assert!(parse_domain_summary("garbage").is_empty());
}

fn item(task_type: &str, urls: &[&str], repeat: i32) -> PlanItemInput {
    PlanItemInput {
        task_type: task_type.into(),
        urls: urls.iter().map(|s| s.to_string()).collect(),
        options: None,
        repeat_count: repeat,
        engine: "headless_chrome".into(),
    }
}

#[test]
fn schedules_fire_after_the_given_time() {
    assert_eq!(
        compute_next_run("*/5 * * * *", "2024-01-01T00:00:00+00:00"),
        Some("2024-01-01T00:05:00+00:00".to_string())
    );
    assert_eq!(compute_next_run("not a schedule", "2024-01-01T00:00:00+00:00"), None);
    assert_eq!(compute_next_run("*/5 * * * *", "yesterday"), None);
    assert!(plan_is_due(None, 0, 0));
    assert!(plan_is_due(Some("2024-01-01T00:00:00+00:00"), 1_704_067_200, 0));
    assert!(!plan_is_due(Some("2024-01-01T00:00:00+00:00"), 1_704_067_199, 999_999_999));
    assert!(plan_is_due(Some("unreadable"), 0, 0));
}

#[test]
fn plan_requests_are_checked() {
    let now = "2024-01-01T00:00:00+00:00";
    let good = vec![item("website", &["https://example.com"], 1)];
    assert_eq!(check_plan_request("daily", Some("0 * * * *"), &good, now), Ok(()));
    assert_eq!(check_plan_request("  ", None, &good, now), Err("计划名不能为空".into()));
    assert_eq!(check_plan_request("x", None, &vec![], now), Err("计划至少需要包含一个测试项".into()));
    assert_eq!(check_plan_request("x", Some(" "), &good, now), Err("无效的 cron 表达式".into()));
    let items = vec![good[0].clone(), item("ftp", &["a"], 1)];
    assert_eq!(check_plan_request("x", None, &items, now), Err("第 2 项的任务类型无效".into()));
    let items = vec![item("ping", &["1.1.1.1"], 101)];
    assert_eq!(check_plan_request("x", None, &items, now), Err("第 1 项的重复次数必须在 1 到 100 之间".into()));
    let items = vec![item("video", &[" https://a.com"], 1)];
    assert_eq!(check_plan_request("x", None, &items, now), Err("第 1 项包含带空格的目标".into()));
    let items = vec![item("website", &["http://127.0.0.1"], 1)];
    assert_eq!(
        check_plan_request("x", None, &items, now),
        Err("第 1 项包含无效目标: 不允许访问内网地址: 127.0.0.1".into())
    );
}

fn stored(task_type: &str, urls: &str, repeat: i32) -> TaskPlanItem {
    TaskPlanItem {
        id: "i".into(),
        plan_id: "p".into(),
        task_type: task_type.into(),
        urls: urls.into(),
        options: None,
        repeat_count: repeat,
        engine: None,
        order_index: 0,
        created_at: String::new(),
    }
}

#[test]
fn stored_items_are_checked_before_running() {
    assert_eq!(prepare_plan_item(&stored("ping", r#"["1.1.1.1:443"]"#, 2)), Ok(vec!["1.1.1.1:443".to_string()]));
    assert_eq!(prepare_plan_item(&stored("mail", "[]", 1)), Err("任务类型无效: mail".into()));
    assert_eq!(prepare_plan_item(&stored("ping", "[]", 0)), Err("重复次数必须在 1 到 100 之间".into()));
    assert_eq!(prepare_plan_item(&stored("ping", "[]", 1)), Err("计划项至少需要一个 URL".into()));
    assert!(prepare_plan_item(&stored("ping", "not json", 1)).is_err());
    assert_eq!(prepare_plan_item(&stored("website", r#"["ftp://x"]"#, 1)), Err("无效目标: 不支持的协议: ftp（仅支持 http/https）".into()));
}

#[test]
fn plan_access_and_runs() {
    assert_eq!(plan_access(None, "u", PlanAction::Update), Err("计划不存在".into()));
    assert_eq!(plan_access(Some("v"), "u", PlanAction::Delete), Err("无权删除此计划".into()));
    assert_eq!(plan_access(Some("u"), "u", PlanAction::Run), Ok(()));
    assert_eq!(run_now_check(Some("u"), "u", 0, 0), Err("计划无测试项".into()));
    assert_eq!(run_now_check(Some("u"), "u", 2, 1), Err("计划已有运行中的任务".into()));
    assert_eq!(run_now_check(Some("u"), "u", 2, 0), Ok(()));
    assert!(run_is_complete(3, 3, "running"));
    assert!(!run_is_complete(0, 0, "running"));
    assert!(!run_is_complete(3, 3, "completed"));
    assert_eq!(PlanService::page_window(0, 500), (100, 0));
    assert_eq!(PlanService::page_window(3, 20), (20, 40));
    assert_eq!(PlanService::page_window(u32::MAX, 100), (100, u32::MAX));
    assert_eq!(PlanService::run_limit(500), 100);
}

#[test]
fn run_records_are_deleted_only_when_idle() {
    assert!(matches!(plan_run_deletion(Some("u"), "u", Some("running"), false, 0, false), RunDeletion::Refused(m) if m == "请等待任务完成后再删除，或使用强制删除"));
    assert!(matches!(plan_run_deletion(Some("u"), "u", Some("running"), true, 2, false), RunDeletion::CancelActiveAndRefuse(_)));
    assert!(matches!(plan_run_deletion(Some("u"), "u", Some("completed"), false, 1, false), RunDeletion::Refused(m) if m == "运行中的子任务已取消，请完成协调后再删除运行记录"));
    assert!(matches!(plan_run_deletion(Some("u"), "u", Some("completed"), true, 0, false), RunDeletion::Delete { purge_tasks: true }));
    assert!(matches!(plan_run_deletion(Some("u"), "u", Some("completed"), false, 0, false), RunDeletion::Delete { purge_tasks: false }));
    assert!(matches!(plan_run_deletion(Some("u"), "u", None, false, 0, false), RunDeletion::Refused(m) if m == "运行记录不存在"));
    assert!(matches!(plan_run_deletion(Some("v"), "u", Some("completed"), true, 0, false), RunDeletion::Refused(m) if m == "无权删除"));
}

#[test]
fn registration_rules() {
    assert_eq!(AuthService::check_registration(" ", "Abcdefg1"), Err("用户名不能为空".into()));
    assert_eq!(AuthService::check_registration("ann", "Abc1"), Err("密码至少需要8个字符".into()));
    assert_eq!(AuthService::check_registration("ann", "abcdefg1"), Err("密码需要包含至少一个大写字母".into()));
    assert_eq!(AuthService::check_registration("ann", "ABCDEFG1"), Err("密码需要包含至少一个小写字母".into()));
    assert_eq!(AuthService::check_registration("ann", "Abcdefgh"), Err("密码需要包含至少一个数字".into()));
    assert_eq!(AuthService::check_registration("ann", "Abcdefg1"), Ok(()));
    assert_eq!(AuthService::first_user_role(0), "admin");
    assert_eq!(AuthService::first_user_role(3), "user");
}

#[test]
fn logins_check_the_stored_hash() {
    let hash = bcrypt::hash("Secret123", 4).unwrap();
    assert_eq!(AuthService::check_login(Some(&hash), "Secret123"), Ok(()));
    assert_eq!(AuthService::check_login(Some(&hash), "wrong"), Err("用户名或密码错误".into()));
    assert_eq!(AuthService::check_login(None, "Secret123"), Err("用户名或密码错误".into()));
    assert!(AuthService::check_login(Some("not a hash"), "x").is_err());
}

#[test]
fn task_names_round_trip() {
    for t in [TaskType::Website, TaskType::Download, TaskType::Video] {
        assert_eq!(TaskType::from_name(t.as_str()), Some(t));
    }
    for s in [TaskStatus::Pending, TaskStatus::Running, TaskStatus::Completed, TaskStatus::Failed, TaskStatus::Cancelled] {
        assert_eq!(TaskStatus::from_name(s.as_str()), Some(s));
    }
    assert_eq!(TaskType::from_name("ping"), None);
    assert!(TaskStatus::Running.is_active());
    assert!(!TaskStatus::Failed.is_active());
    assert_eq!(TestConfig::default().repeat_count, 1);
}

#[test]
fn sealed_cookies_open_back() {
    let key = [7u8; 32];
    let payload = br#"[{"name":"SID","value":"x","domain":".youtube.com"}]"#;
    let sealed = encrypt_payload(&key, payload).unwrap();
    assert!(sealed.contains("\"alg\":\"A256GCM\""));
    assert_eq!(decrypt_payload(&key, &sealed).unwrap(), payload.to_vec());
    let other = [8u8; 32];
    assert_eq!(
        decrypt_payload(&other, &sealed),
        Err("Cookie 解密失败，请确认 /app/storage 密钥未变化".to_string())
    );
    assert_eq!(encrypt_payload(&[1u8; 16], payload), Err("Cookie 密钥无效".to_string()));
    assert_eq!(decrypt_payload(&key, r#"{"alg":"RSA"}"#), Err("不支持的 Cookie 加密算法".to_string()));
    assert_eq!(decrypt_payload(&key, r#"{"alg":"A256GCM"}"#), Err("Cookie 加密包缺少 nonce".to_string()));
    assert_eq!(
        decrypt_payload(&key, r#"{"alg":"A256GCM","nonce":"AAAA"}"#),
        Err("Cookie 加密包缺少 ciphertext".to_string())
    );
    assert_eq!(
        decrypt_payload(&key, r#"{"alg":"A256GCM","nonce":"AAAA","ciphertext":"AAAA"}"#),
        Err("Cookie nonce 无效".to_string())
    );
    assert!(decrypt_payload(&key, "not json").is_err());
}

#[test]
fn sealing_with_a_given_nonce_is_repeatable() {
    let key = [3u8; 32];
    let a = seal_payload_with(&key, [9u8; 12], b"[]").unwrap();
    let b = seal_payload_with(&key, [9u8; 12], b"[]").unwrap();
    assert_eq!(a, b);
    assert!(a.contains("\"nonce\":\"CQkJCQkJCQkJCQkJ\""));
    assert_eq!(decrypt_payload(&key, &a).unwrap(), b"[]".to_vec());
    assert_eq!(seal_payload_with(&[3u8; 31], [9u8; 12], b"[]"), Err("Cookie 密钥无效".to_string()));
}

#[test]
fn item_options_get_repeat_count_and_engine() {
    assert_eq!(merged_item_options(None, 3, None), Ok(r#"{"engine":null,"repeat_count":3}"#.to_string()));
    assert_eq!(
        merged_item_options(Some("not json"), 2, Some("headless_chrome")),
        Ok(r#"{"engine":"headless_chrome","repeat_count":2}"#.to_string())
    );
    assert_eq!(
        merged_item_options(Some(r#"{"metrics":["all"],"repeat_count":9}"#), 1, Some("x")),
        Ok(r#"{"engine":"x","metrics":["all"],"repeat_count":1}"#.to_string())
    );
    assert_eq!(merged_item_options(Some("[1]"), 1, None), Err("测试项选项必须是 JSON 对象".to_string()));
    let mut item = stored("ping", r#"["1.1.1.1"]"#, 2);
    item.options = Some(r#"{"count":4}"#.to_string());
    assert_eq!(
        prepare_plan_run_item(&item),
        Ok((vec!["1.1.1.1".to_string()], r#"{"count":4,"engine":null,"repeat_count":2}"#.to_string()))
    );
    assert!(prepare_plan_run_item(&stored("ping", r#"["1.1.1.1"]"#, 0)).is_err());
}

#[test]
fn next_run_is_after_the_given_time() {
    assert_eq!(
        compute_next_run("0 * * * *", "2024-01-01T00:30:00+00:00"),
        Some("2024-01-01T01:00:00+00:00".to_string())
    );
    assert_eq!(compute_next_run("0 * * * *", "not a time"), None);
}

#[test]
fn next_run_at_the_end_of_the_calendar_is_none() {
    assert_eq!(compute_next_run("0 * * * * *", "+262142-12-31T23:59:59+00:00"), None);
    assert_eq!(compute_next_run("0 * * * * *", "+262142-12-31T23:59:58+00:00"), None);
}

#[test]
fn supported_platforms_name_themselves() {
    for p in VideoCookieService::supported_platforms() {
        assert_eq!(VideoCookieService::normalize_platform(p), Some(p));
        assert_eq!(VideoCookieService::normalize_platform(&format!(" {} ", p.to_uppercase())), Some(p));
    }
}
