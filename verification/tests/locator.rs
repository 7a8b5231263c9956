use pvz_demo::error::{Error, ErrorKind};
use pvz_demo::locator::{
    by_executable_path, by_process_name, by_window_title, launch_request, launch_request_in,
    Canonical, ProcessEntry,
};
use pvz_demo::wstr::WStr;

const NO_PROCESS: &str = "未找到符合名称的进程";
const NO_WINDOW: &str = "未找到符合名称的窗口";
const NO_DIRECTORY: &str = "获取目录失败";

fn entry(pid: u32, name: &str) -> ProcessEntry {
    let mut buffer = [0u16; 260];
    for (i, unit) in name.encode_utf16().enumerate() {
        buffer[i] = unit;
    }
    ProcessEntry { pid, exe_file: WStr::from(&buffer) }
}

fn failure<T>(result: Result<T, Error>) -> (ErrorKind, String) {
    match result {
        Ok(_) => panic!("the operation succeeded"),
        Err(error) => (error.kind, error.message),
    }
}

fn wide(text: &str) -> Vec<u16> {
    let mut units: Vec<u16> = text.encode_utf16().collect();
    units.push(0);
    units
}

#[test]
fn no_entry_of_that_name_is_not_found() {
    let snapshot = vec![entry(4, "System"), entry(812, "explorer.exe")];
    assert_eq!(
        failure(by_process_name("PlantsVsZombies.exe", Ok(snapshot))),
        (ErrorKind::NotFound, NO_PROCESS.to_string())
    );
}

#[test]
fn an_empty_snapshot_is_not_found() {
    assert_eq!(
        failure(by_process_name("PlantsVsZombies.exe", Ok(vec![]))),
        (ErrorKind::NotFound, NO_PROCESS.to_string())
    );
}

#[test]
fn the_one_entry_of_that_name_gives_its_process() {
    let snapshot = vec![entry(4, "System"), entry(5120, "PlantsVsZombies.exe"), entry(812, "explorer.exe")];
    assert_eq!(by_process_name("PlantsVsZombies.exe", Ok(snapshot)).unwrap(), 5120);
}

#[test]
fn of_several_entries_the_first_decides() {
    let snapshot = vec![
        entry(9000, "PlantsVsZombies.exe"),
        entry(4, "System"),
        entry(120, "PlantsVsZombies.exe"),
        entry(5120, "PlantsVsZombies.exe"),
    ];
    assert_eq!(by_process_name("PlantsVsZombies.exe", Ok(snapshot)).unwrap(), 9000);
}

#[test]
fn names_are_compared_letter_for_letter() {
    let snapshot = vec![entry(1, "plantsvszombies.exe"), entry(2, "PlantsVsZombies.exe2"), entry(3, "PlantsVsZombies")];
    assert_eq!(
        failure(by_process_name("PlantsVsZombies.exe", Ok(snapshot))),
        (ErrorKind::NotFound, NO_PROCESS.to_string())
    );
}

#[test]
fn names_beyond_ascii_are_found() {
    let snapshot = vec![entry(1, "植物大战僵尸.exe"), entry(2, "植物大战僵尸中文版.exe")];
    assert_eq!(by_process_name("植物大战僵尸中文版.exe", Ok(snapshot)).unwrap(), 2);
}

#[test]
fn what_follows_the_nul_in_the_buffer_does_not_count() {
    let buffer: [u16; 8] = [0x61, 0x2E, 0x65, 0, 0x78, 0x65, 0, 0];
    let snapshot = vec![ProcessEntry { pid: 77, exe_file: WStr::from(&buffer) }];
    assert_eq!(by_process_name("a.e", Ok(snapshot)).unwrap(), 77);
}

#[test]
fn a_snapshot_that_could_not_be_taken_is_not_found() {
    assert_eq!(
        failure(by_process_name("PlantsVsZombies.exe", Err("Access is denied.".to_string()))),
        (ErrorKind::NotFound, "Access is denied.".to_string())
    );
}

#[test]
fn a_window_with_an_owner_gives_the_owner() {
    assert_eq!(by_window_title(5120).unwrap(), 5120);
    assert_eq!(by_window_title(1).unwrap(), 1);
    assert_eq!(by_window_title(u32::MAX).unwrap(), u32::MAX);
}

#[test]
fn no_window_is_not_found() {
    assert_eq!(failure(by_window_title(0)), (ErrorKind::NotFound, NO_WINDOW.to_string()));
}

#[test]
fn a_path_that_does_not_resolve_is_invalid() {
    let canonical = Canonical::Failed("The system cannot find the file specified.".to_string());
    assert_eq!(
        failure(launch_request(canonical)),
        (ErrorKind::InvalidPath, "The system cannot find the file specified.".to_string())
    );
}

#[test]
fn a_path_that_is_not_text_is_invalid() {
    let canonical = Canonical::NotText("/games/pvz\u{FFFD}/PlantsVsZombies.exe".to_string());
    assert_eq!(
        failure(launch_request(canonical)),
        (ErrorKind::InvalidPath, "无效路径：/games/pvz\u{FFFD}/PlantsVsZombies.exe".to_string())
    );
}

#[test]
fn a_path_without_a_directory_is_invalid() {
    assert_eq!(
        failure(launch_request_in("PlantsVsZombies.exe", None)),
        (ErrorKind::InvalidPath, NO_DIRECTORY.to_string())
    );
    assert_eq!(
        failure(launch_request(Canonical::Text("/".to_string()))),
        (ErrorKind::InvalidPath, NO_DIRECTORY.to_string())
    );
}

#[test]
fn the_executable_is_started_in_its_directory() {
    let request = launch_request_in("C:\\Games\\PvZ\\PlantsVsZombies.exe", Some("C:\\Games\\PvZ")).unwrap();
    assert_eq!(request.command.as_slice(), wide("C:\\Games\\PvZ\\PlantsVsZombies.exe").as_slice());
    assert_eq!(request.directory.as_slice(), wide("C:\\Games\\PvZ").as_slice());
}

#[test]
fn the_directory_is_the_parent_of_the_path() {
    let request = launch_request(Canonical::Text("/games/pvz/PlantsVsZombies.exe".to_string())).unwrap();
    assert_eq!(request.command.as_slice(), wide("/games/pvz/PlantsVsZombies.exe").as_slice());
    assert_eq!(request.directory.as_slice(), wide("/games/pvz").as_slice());
}

#[test]
fn a_launch_gives_the_new_process() {
    assert_eq!(by_executable_path(Ok(6004)).unwrap(), 6004);
}

#[test]
fn a_failed_launch_carries_the_message() {
    assert_eq!(
        failure(by_executable_path(Err("The requested operation requires elevation.".to_string()))),
        (ErrorKind::LaunchFailed, "The requested operation requires elevation.".to_string())
    );
}

#[test]
fn an_error_shows_its_message() {
    let error = Error::new(ErrorKind::NotLoaded, "关卡未启动".to_string());
    assert_eq!(error.kind, ErrorKind::NotLoaded);
    assert_eq!(error.message, "关卡未启动");
    assert_eq!(error.to_string(), "关卡未启动");
    let again = error.duplicate();
    assert_eq!(again.kind, ErrorKind::NotLoaded);
    assert_eq!(again.message, "关卡未启动");
    let fixed = Error::with_text(ErrorKind::NotFound, NO_WINDOW);
    assert_eq!(fixed.kind, ErrorKind::NotFound);
    assert_eq!(fixed.message, NO_WINDOW);
}

#[test]
fn the_directory_of_a_nested_path_is_its_parent_only() {
    let request = launch_request(Canonical::Text("/games/pvz/bin/PlantsVsZombies.exe".to_string())).unwrap();
    assert_eq!(request.directory.as_slice(), wide("/games/pvz/bin").as_slice());
    assert_ne!(request.directory.as_slice(), request.command.as_slice());
    let at_the_root = launch_request(Canonical::Text("/PlantsVsZombies.exe".to_string())).unwrap();
    assert_eq!(at_the_root.command.as_slice(), wide("/PlantsVsZombies.exe").as_slice());
    assert_eq!(at_the_root.directory.as_slice(), wide("/").as_slice());
}
