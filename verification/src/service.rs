//! The systemd unit of the daemon: which user it runs as, and what the unit
//! file holds.

use crate::driver::option_view;
use crate::text::{
    all_within, chars_of, cut, line_ranges, lines, range_equals, slice, split, split_ranges,
};
use vstd::prelude::*;

verus! {

/// The name of the unit.
pub const SERVICE_NAME: &'static str = "git-sync";

/// The path of the unit file.
pub const SERVICE_PATH: &'static str = "/etc/systemd/system/git-sync.service";

/// What the process environment tells of the user: the variables
/// `SUDO_USER`, `USER`, `LOGNAME` and `HOME`, each where it is set.
#[derive(Debug, Clone, PartialEq, Eq)]
pub struct Environment {
    pub sudo_user: Option<String>,
    pub user: Option<String>,
    pub logname: Option<String>,
    pub home: Option<String>,
}

/// What an `Environment` holds, as sequences of characters.
pub struct EnvironmentView {
    pub sudo_user: Option<Seq<char>>,
    pub user: Option<Seq<char>>,
    pub logname: Option<Seq<char>>,
    pub home: Option<Seq<char>>,
}

impl View for Environment {
    type V = EnvironmentView;

    open spec fn view(&self) -> EnvironmentView {
        EnvironmentView {
            sudo_user: option_view(self.sudo_user),
            user: option_view(self.user),
            logname: option_view(self.logname),
            home: option_view(self.home),
        }
    }
}

/// The home directory that a line of the user database gives `username`:
/// the sixth of its fields, where it has six and the first is the name.
pub open spec fn home_in_line(line: Seq<char>, username: Seq<char>) -> Option<Seq<char>> {
    let fields = split(line, ':');
    if fields.len() >= 6 && fields[0] == username {
        Some(fields[5])
    } else {
        None
    }
}

/// The home directory that the first of `lines` to name `username` gives.
pub open spec fn home_among(lines: Seq<Seq<char>>, username: Seq<char>) -> Option<Seq<char>>
    decreases lines.len(),
{
    if lines.len() == 0 {
        None
    } else {
        match home_in_line(lines.first(), username) {
            Some(home) => Some(home),
            None => home_among(lines.drop_first(), username),
        }
    }
}

/// The home directory of `username` by the user database `passwd`.
pub open spec fn home_of(passwd: Seq<char>, username: Seq<char>) -> Option<Seq<char>> {
    home_among(lines(passwd), username)
}

/// A user with the home directory that the user database gives.
pub open spec fn known_user(passwd: Seq<char>, name: Option<Seq<char>>) -> Option<
    (Seq<char>, Seq<char>),
> {
    match name {
        Some(name) => match home_of(passwd, name) {
            Some(home) => Some((name, home)),
            None => None,
        },
        None => None,
    }
}

/// The user to run the service as, with the home directory: the user who
/// called `sudo`, where the user database knows one; else the current user,
/// where it knows that one; else the user that `USER` or, failing that,
/// `LOGNAME` names, with the directory that `HOME` names.
pub open spec fn service_user(env: EnvironmentView, passwd: Seq<char>) -> Option<
    (Seq<char>, Seq<char>),
> {
    if known_user(passwd, env.sudo_user) is Some {
        known_user(passwd, env.sudo_user)
    } else if known_user(passwd, env.user) is Some {
        known_user(passwd, env.user)
    } else {
        match (env.home, env.user, env.logname) {
            (Some(home), Some(user), _) => Some((user, home)),
            (Some(home), None, Some(logname)) => Some((logname, home)),
            _ => None,
        }
    }
}

/// What the unit file holds for a daemon that runs as `username`, in
/// `home_dir`, from the executable at `exec`.
pub open spec fn unit_text(username: Seq<char>, home_dir: Seq<char>, exec: Seq<char>) -> Seq<
    char,
> {
    "[Unit]\nDescription=Daemon de sincronización de Git Sync\nAfter=network-online.target\nWants=network-online.target\n\n[Service]\nType=simple\nUser="@
        + username + "\nWorkingDirectory="@ + home_dir + "\nEnvironment=HOME="@ + home_dir
        + "\nExecStart="@ + exec
        + " daemon\nRestart=on-failure\nRestartSec=60\n\n[Install]\nWantedBy=multi-user.target\n"@
}

/// Looks `username` up in `passwd`, the text of the user database.
pub fn home_for_user(passwd: &str, username: &str) -> (home: Option<String>)
    ensures
        option_view(home) == home_of(passwd@, username@),
{
    let chars = chars_of(passwd);
    let name = chars_of(username);
    let ranges = line_ranges(&chars);
    let mut i: usize = 0;
    assert(lines(passwd@).skip(0) == lines(passwd@));
    while i < ranges.len()
        invariant
            i <= ranges.len(),
            chars@ == passwd@,
            name@ == username@,
            cut(chars@, ranges@) == lines(passwd@),
            all_within(ranges@, 0, chars.len() as int),
            home_among(lines(passwd@).skip(i as int), username@) == home_of(passwd@, username@),
        decreases ranges.len() - i,
    {
        let (lo, hi) = ranges[i];
        let ghost rest = lines(passwd@).skip(i as int);
        proof {
            assert(rest.first() == cut(chars@, ranges@)[i as int]);
            assert(rest.drop_first() == lines(passwd@).skip(i + 1));
        }
        let fields = split_ranges(&chars, lo, hi, ':');
        proof {
            let parts = split(chars@.subrange(lo as int, hi as int), ':');
            assert(parts.len() == fields.len());
            if fields.len() >= 6 {
                assert(parts[0] == cut(chars@, fields@)[0]);
                assert(parts[5] == cut(chars@, fields@)[5]);
            }
        }
        if fields.len() >= 6 {
            let (first_lo, first_hi) = fields[0];
            if range_equals(&chars, first_lo, first_hi, &name) {
                let (home_lo, home_hi) = fields[5];
                return Some(slice(passwd, home_lo, home_hi));
            }
        }
        i += 1;
    }
    assert(lines(passwd@).skip(ranges.len() as int) == Seq::<Seq<char>>::empty());
    None
}

fn known(passwd: &str, name: &Option<String>) -> (r: Option<(String, String)>)
    ensures
        match r {
            Some((user, home)) => known_user(passwd@, option_view(*name)) == Some((user@, home@)),
            None => known_user(passwd@, option_view(*name)) is None,
        },
{
    match name {
        Some(name) => match home_for_user(passwd, name.as_str()) {
            Some(home) => Some((name.clone(), home)),
            None => None,
        },
        None => None,
    }
}

/// Chooses the user to run the service as, by the environment and the text
/// of the user database; fails where neither tells.
pub fn resolve_service_user(env: &Environment, passwd: &str) -> (r: Result<
    (String, String),
    String,
>)
    ensures
        match r {
            Ok((user, home)) => service_user(env@, passwd@) == Some((user@, home@)),
            Err(why) => service_user(env@, passwd@) is None && why@
                == "❌ No fue posible determinar la información del usuario para instalar el servicio"@,
        },
{
    if let Some(found) = known(passwd, &env.sudo_user) {
        return Ok(found);
    }
    if let Some(found) = known(passwd, &env.user) {
        return Ok(found);
    }
    if let Some(home) = &env.home {
        if let Some(user) = &env.user {
            return Ok((user.clone(), home.clone()));
        }
        if let Some(logname) = &env.logname {
            return Ok((logname.clone(), home.clone()));
        }
    }
    Err(
        "❌ No fue posible determinar la información del usuario para instalar el servicio".to_owned(),
    )
}

/// Writes the unit file for a daemon that runs as `username`, in
/// `home_dir`, from the executable at `exec`.
pub fn service_unit(username: &str, home_dir: &str, exec: &str) -> (text: String)
    ensures
        text@ == unit_text(username@, home_dir@, exec@),
{
    let mut text =
        "[Unit]\nDescription=Daemon de sincronización de Git Sync\nAfter=network-online.target\nWants=network-online.target\n\n[Service]\nType=simple\nUser=".to_owned();
    text.append(username);
    text.append("\nWorkingDirectory=");
    text.append(home_dir);
    text.append("\nEnvironment=HOME=");
    text.append(home_dir);
    text.append("\nExecStart=");
    text.append(exec);
    text.append(
        " daemon\nRestart=on-failure\nRestartSec=60\n\n[Install]\nWantedBy=multi-user.target\n",
    );
    text
}

} // verus!
