use git_sync::service::{
    home_for_user, resolve_service_user, service_unit, Environment, SERVICE_NAME, SERVICE_PATH,
};

const PASSWD: &str = "root:x:0:0:root:/root:/bin/bash\n\
daemon:x:1:1:daemon:/usr/sbin:/usr/sbin/nologin\n\
short:x:5:5\n\
ana:x:1000:1000:Ana,,,:/home/ana:/bin/zsh\r\n\
ana:x:1001:1001::/home/other:/bin/sh\n\
bo:x:1002:1002::/home/bo";

fn env(sudo: Option<&str>, user: Option<&str>, logname: Option<&str>, home: Option<&str>) -> Environment {
    Environment {
        sudo_user: sudo.map(|s| s.to_string()),
        user: user.map(|s| s.to_string()),
        logname: logname.map(|s| s.to_string()),
        home: home.map(|s| s.to_string()),
    }
}

fn pair(user: &str, home: &str) -> Result<(String, String), String> {
    Ok((user.to_string(), home.to_string()))
}

#[test]
fn names_of_the_unit() {
    assert_eq!(SERVICE_NAME, "git-sync");
    assert_eq!(SERVICE_PATH, "/etc/systemd/system/git-sync.service");
}

#[test]
fn home_is_the_sixth_field_of_the_first_matching_line() {
    assert_eq!(home_for_user(PASSWD, "root"), Some("/root".to_string()));
    assert_eq!(home_for_user(PASSWD, "ana"), Some("/home/ana".to_string()));
    assert_eq!(home_for_user(PASSWD, "bo"), Some("/home/bo".to_string()));
    assert_eq!(home_for_user(PASSWD, "short"), None);
    assert_eq!(home_for_user(PASSWD, "nobody"), None);
    assert_eq!(home_for_user(PASSWD, "roo"), None);
    assert_eq!(home_for_user("", "root"), None);
    assert_eq!(home_for_user(":::::/h", ""), Some("/h".to_string()));
}

#[test]
fn home_lookup_agrees_with_lines_and_split_of_std() {
    for name in ["root", "ana", "bo", "short", "x", ""] {
        let mut expected = None;
        for line in PASSWD.lines() {
            let parts: Vec<&str> = line.split(':').collect();
            if parts.len() >= 6 && parts[0] == name {
                expected = Some(parts[5].to_string());
                break;
            }
        }
        assert_eq!(home_for_user(PASSWD, name), expected, "{:?}", name);
    }
}

#[test]
fn sudo_user_comes_first() {
    assert_eq!(
        resolve_service_user(&env(Some("ana"), Some("root"), None, Some("/root")), PASSWD),
        pair("ana", "/home/ana")
    );
}

#[test]
fn current_user_comes_second() {
    assert_eq!(
        resolve_service_user(&env(Some("ghost"), Some("root"), None, Some("/elsewhere")), PASSWD),
        pair("root", "/root")
    );
    assert_eq!(
        resolve_service_user(&env(None, Some("bo"), None, None), PASSWD),
        pair("bo", "/home/bo")
    );
}

#[test]
fn environment_alone_is_the_last_resort() {
    assert_eq!(
        resolve_service_user(&env(None, Some("ghost"), Some("log"), Some("/h")), PASSWD),
        pair("ghost", "/h")
    );
    assert_eq!(
        resolve_service_user(&env(Some("ghost"), None, Some("log"), Some("/h")), ""),
        pair("log", "/h")
    );
}

#[test]
fn user_that_cannot_be_told_is_an_error() {
    let why = "❌ No fue posible determinar la información del usuario para instalar el servicio";
    assert_eq!(resolve_service_user(&env(None, None, None, None), PASSWD), Err(why.to_string()));
    assert_eq!(
        resolve_service_user(&env(Some("ghost"), Some("ghost"), Some("x"), None), PASSWD),
        Err(why.to_string())
    );
    assert_eq!(
        resolve_service_user(&env(None, None, None, Some("/h")), PASSWD),
        Err(why.to_string())
    );
}

#[test]
fn unit_names_user_home_and_executable() {
    assert_eq!(
        service_unit("ana", "/home/ana", "/usr/local/bin/git-sync"),
        "[Unit]\n\
         Description=Daemon de sincronización de Git Sync\n\
         After=network-online.target\n\
         Wants=network-online.target\n\
         \n\
         [Service]\n\
         Type=simple\n\
         User=ana\n\
         WorkingDirectory=/home/ana\n\
         Environment=HOME=/home/ana\n\
         ExecStart=/usr/local/bin/git-sync daemon\n\
         Restart=on-failure\n\
         RestartSec=60\n\
         \n\
         [Install]\n\
         WantedBy=multi-user.target\n"
    );
}
