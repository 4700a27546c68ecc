use netpulse::api::admin::{check_role, check_user_deletion, cookie_deletion_result, ensure_admin};
use netpulse::api::auth::{bearer_token, client_ip, throttle_key};
use netpulse::api::plan::{default_export_format, plan_run_export};
use netpulse::api::task::{
    batch_deletes, check_create_task, check_task_deletion, import_summary, import_task_type, is_forced,
    is_importable_type, task_export_file, ExportKind,
};
use netpulse::services::task::TaskService;
use netpulse::storage::{sanitize_url_for_filename, StorageManager};
use netpulse::utils::ratelimit::RateLimiter;
use netpulse::utils::response::AppError;
use netpulse::worker::{avg_i32, metric_enabled, parse_metrics, parse_repeat_count, success_percent};

#[test]
fn limiter_admits_up_to_the_limit_per_window() {
    let mut l = RateLimiter::new(2, 60);
    let s = 1_000_000_000u128;
    assert!(l.check_at("a", 0));
    assert!(l.check_at("a", s));
    assert!(!l.check_at("a", 2 * s));
    assert!(l.check_at("b", 2 * s));
    assert!(!l.check_at("a", 59 * s));
    assert!(l.check_at("a", 61 * s));
    assert!(l.check_at("a", 61 * s));
    assert!(!l.check_at("a", 62 * s));
    let mut fresh = RateLimiter::new(1, 10);
    assert!(fresh.check("k"));
    assert!(!fresh.check("k"));
}

#[test]
fn screenshot_names() {
    assert_eq!(sanitize_url_for_filename("https://a.com/x?y=1&z=2"), "https_a.com_x_y_1_z_2");
    assert_eq!(sanitize_url_for_filename("http://例子.cn/路径 !"), "http_例子.cn_路径");
    assert_eq!(StorageManager::get_screenshot_path("/data/shots", "t1/a.png"), "/data/shots/t1/a.png");
    assert_eq!(StorageManager::screenshot_relative_path("t1", "https://a.com"), "t1/https_a.com.png");
    assert_eq!(StorageManager::task_dir("/d", "t1"), "/d/t1");
}

#[test]
fn errors_carry_code_and_status() {
    let e = AppError::bad_request("x");
    assert_eq!((e.code, e.status, e.msg.as_str()), (1000, 200, "x"));
    let e = AppError::unauthorized("y");
    assert_eq!((e.code, e.status), (1001, 401));
    let e = AppError::not_found("z");
    assert_eq!((e.code, e.status), (1002, 404));
    let e = AppError::internal("w");
    assert_eq!((e.code, e.status), (5000, 500));
}

#[test]
fn admin_checks() {
    assert!(ensure_admin("admin").is_ok());
    let e = ensure_admin("user").unwrap_err();
    assert_eq!((e.code, e.msg.as_str()), (1001, "无权限"));
    assert!(check_role("user").is_ok());
    assert_eq!(check_role("root").unwrap_err().msg, "无效角色");
    assert_eq!(check_user_deletion("u1", "u1", 3, "user").unwrap_err().msg, "不能删除自己");
    assert_eq!(check_user_deletion("u2", "u1", 1, "admin").unwrap_err().msg, "不能删除最后一个管理员");
    assert!(check_user_deletion("u2", "u1", 2, "admin").is_ok());
    assert_eq!(cookie_deletion_result(false).unwrap_err().status, 404);
}

#[test]
fn client_addresses_and_tokens() {
    assert_eq!(client_ip(Some(" 1.2.3.4 , 5.6.7.8"), Some("9.9.9.9")), "1.2.3.4");
    assert_eq!(client_ip(None, Some("9.9.9.9")), "9.9.9.9");
    assert_eq!(client_ip(None, None), "unknown");
    assert_eq!(throttle_key("login", "1.2.3.4"), "login:1.2.3.4");
    assert_eq!(bearer_token(Some("Bearer abc.def")).unwrap(), "abc.def");
    assert_eq!(bearer_token(Some("Basic abc")).unwrap_err().msg, "缺少认证 Token");
    assert_eq!(bearer_token(None).unwrap_err().status, 401);
}

#[test]
fn task_endpoint_checks() {
    assert_eq!(check_create_task(0, "website").unwrap_err().msg, "测试URL列表不能为空");
    assert_eq!(check_create_task(1, "ping").unwrap_err().msg, "无效的任务类型");
    assert!(check_create_task(1, "video").is_ok());
    let f = task_export_file("ping", "xlsx", "t9").ok().unwrap();
    assert_eq!(f.kind, ExportKind::Xlsx);
    assert_eq!(f.filename, "ping_t9.xlsx");
    let f = task_export_file("website", "csv", "t9").ok().unwrap();
    assert_eq!((f.content_type, f.filename.as_str()), ("text/csv", "website_t9.csv"));
    let f = task_export_file("video", "pdf", "t9").ok().unwrap();
    assert_eq!((f.kind, f.filename.as_str()), (ExportKind::Json, "video_t9.json"));
    assert_eq!(task_export_file("mail", "csv", "t9").err().unwrap().msg, "不支持的任务类型");
    assert_eq!(import_task_type(Some(" [Ping] ")), "ping");
    assert_eq!(import_task_type(None), "website");
    assert!(is_importable_type("ping"));
    assert!(!is_importable_type("mail"));
    assert_eq!(import_summary(3, 1), "导入完成: 3 成功, 1 失败");
    assert_eq!(check_task_deletion(None, "u", false).unwrap_err().status, 404);
    assert_eq!(check_task_deletion(Some(("v", "completed")), "u", true).unwrap_err().msg, "无权删除");
    assert_eq!(check_task_deletion(Some(("u", "running")), "u", false).unwrap_err().msg, "请先取消运行中的任务再删除");
    assert!(check_task_deletion(Some(("u", "running")), "u", true).is_ok());
    assert!(batch_deletes("u", "failed", "u"));
    assert!(!batch_deletes("u", "pending", "u"));
    assert!(is_forced(Some("true")));
    assert!(!is_forced(Some("1")));
}

#[test]
fn plan_run_exports() {
    assert_eq!(default_export_format(), "json");
    let (k, t, name) = plan_run_export("csv", "0123456789abcdef");
    assert_eq!((k, t, name.as_str()), (ExportKind::Csv, "text/csv", "plan_run_01234567.csv"));
    let (k, _, name) = plan_run_export("", "abc");
    assert_eq!((k, name.as_str()), (ExportKind::Json, "plan_run_abc.json"));
}

#[test]
fn worker_settings_and_means() {
    assert_eq!(parse_repeat_count(None), 1);
    assert_eq!(parse_repeat_count(Some(0)), 1);
    assert_eq!(parse_repeat_count(Some(5)), 5);
    let m = parse_metrics(None);
    assert_eq!(m, vec!["basic".to_string(), "page".to_string(), "resource".to_string()]);
    assert!(metric_enabled(&m, "page"));
    assert!(!metric_enabled(&m, "video"));
    assert!(metric_enabled(&vec!["all".to_string()], "video"));
    assert_eq!(avg_i32(&vec![]), None);
    assert_eq!(avg_i32(&vec![1, 2]), Some(2));
    assert_eq!(avg_i32(&vec![-1, -2]), Some(-2));
    assert_eq!(avg_i32(&vec![1, 2, 4]), Some(2));
    assert_eq!(avg_i32(&vec![i32::MAX, i32::MAX]), Some(i32::MAX));
}

#[test]
fn task_pages_start_at_offset_zero() {
    assert_eq!(TaskService::page_offset(1, 20), 0);
    assert_eq!(TaskService::page_offset(3, 20), 40);
    assert_eq!(TaskService::page_offset(2, 0), 0);
}

#[test]
fn success_share_rounds_down() {
    assert_eq!(success_percent(2, 3), 66);
    assert_eq!(success_percent(3, 3), 100);
    assert_eq!(success_percent(0, 0), 0);
}

#[test]
fn limiter_keys_are_independent_and_windows_bounded() {
    let s = 1_000_000_000u128;
    let mut a = RateLimiter::new(2, 10);
    let mut b = RateLimiter::new(2, 10);
    let times = [0u128, 1, 2, 3, 11, 12, 13];
    let mut admitted = Vec::new();
    for (i, t) in times.iter().enumerate() {
        let ra = a.check_at("k", t * s);
        b.check_at("other", t * s);
        let rb = b.check_at("k", t * s);
        assert_eq!(ra, rb, "attempt {}", i);
        admitted.push(ra);
    }
    assert_eq!(admitted, vec![true, true, false, false, true, true, false]);
}

#[test]
fn limiter_with_a_zero_limit_refuses_everything() {
    let s = 1_000_000_000u128;
    let mut l = RateLimiter::new(0, 10);
    assert!(!l.check_at("k", 0));
    assert!(!l.check_at("k", 100 * s));
    assert!(!l.check("other"));
}

#[test]
fn limiter_answer_counts_admissions_inside_the_window() {
    let s = 1_000_000_000u128;
    let mut l = RateLimiter::new(2, 10);
    assert!(l.check_at("k", 0));
    assert!(l.check_at("k", 5 * s));
    // refused checks record nothing: at 10 s only the admission at 5 s is inside the window
    assert!(!l.check_at("k", 9 * s));
    assert!(l.check_at("k", 10 * s));
    assert!(!l.check_at("k", 14 * s));
    assert!(l.check_at("k", 15 * s));
}
