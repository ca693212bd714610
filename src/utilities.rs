//! The handlers that run a system utility and answer with what it printed.
use vstd::prelude::*;
use crate::protocol::{arg_texts, invocation, silent_job, spoken_job, Job, Platform};

verus! {

/// Lists the running processes, then says so aloud.
pub fn ps_command(p: Platform) -> (r: Job)
    ensures
        p == Platform::Windows ==> spoken_job(r, "tasklist"@, Seq::<Seq<char>>::empty(), "Here is the list of running processes."@),
        p == Platform::Unix ==> spoken_job(r, "ps"@, seq!["aux"@], "Here is the list of running processes."@),
{
    let inv = match p {
        Platform::Windows => invocation("tasklist", Vec::new()),
        Platform::Unix => invocation("ps", vec!["aux"]),
    };
    let r = Job { invocation: inv, speech: Some(String::from_str("Here is the list of running processes.")) };
    proof {
        match p {
            Platform::Windows => assert(arg_texts(r.invocation.args@) =~= Seq::<Seq<char>>::empty()),
            Platform::Unix => assert(arg_texts(r.invocation.args@) =~= seq!["aux"@]),
        }
    }
    r
}

/// Lists the space left on each disk, then says so aloud.
pub fn df_command(p: Platform) -> (r: Job)
    ensures
        p == Platform::Windows ==> spoken_job(r, "wmic"@, seq!["logicaldisk"@, "get"@, "size,freespace,caption"@], "Here is the disk space information."@),
        p == Platform::Unix ==> spoken_job(r, "df"@, seq!["-h"@], "Here is the disk space information."@),
{
    let inv = match p {
        Platform::Windows => invocation("wmic", vec!["logicaldisk", "get", "size,freespace,caption"]),
        Platform::Unix => invocation("df", vec!["-h"]),
    };
    let r = Job { invocation: inv, speech: Some(String::from_str("Here is the disk space information.")) };
    proof {
        match p {
            Platform::Windows => assert(arg_texts(r.invocation.args@) =~= seq!["logicaldisk"@, "get"@, "size,freespace,caption"@]),
            Platform::Unix => assert(arg_texts(r.invocation.args@) =~= seq!["-h"@]),
        }
    }
    r
}

/// Lists the user accounts.
pub fn list_users(p: Platform) -> (r: Job)
    ensures
        p == Platform::Windows ==> silent_job(r, "net"@, seq!["user"@]),
        p == Platform::Unix ==> silent_job(r, "cut"@, seq!["-d:"@, "-f1"@, "/etc/passwd"@]),
{
    let inv = match p {
        Platform::Windows => invocation("net", vec!["user"]),
        Platform::Unix => invocation("cut", vec!["-d:", "-f1", "/etc/passwd"]),
    };
    let r = Job { invocation: inv, speech: None };
    proof {
        match p {
            Platform::Windows => assert(arg_texts(r.invocation.args@) =~= seq!["user"@]),
            Platform::Unix => assert(arg_texts(r.invocation.args@) =~= seq!["-d:"@, "-f1"@, "/etc/passwd"@]),
        }
    }
    r
}

/// Lists the services.
pub fn list_services(p: Platform) -> (r: Job)
    ensures
        p == Platform::Windows ==> silent_job(r, "tasklist"@, Seq::<Seq<char>>::empty()),
        p == Platform::Unix ==> silent_job(r, "systemctl"@, seq!["list-units"@, "--type=service"@, "--all"@]),
{
    let inv = match p {
        Platform::Windows => invocation("tasklist", Vec::new()),
        Platform::Unix => invocation("systemctl", vec!["list-units", "--type=service", "--all"]),
    };
    let r = Job { invocation: inv, speech: None };
    proof {
        match p {
            Platform::Windows => assert(arg_texts(r.invocation.args@) =~= Seq::<Seq<char>>::empty()),
            Platform::Unix => assert(arg_texts(r.invocation.args@) =~= seq!["list-units"@, "--type=service"@, "--all"@]),
        }
    }
    r
}

/// Lists the open network ports.
pub fn list_ports(p: Platform) -> (r: Job)
    ensures
        p == Platform::Windows ==> silent_job(r, "netstat"@, seq!["-ano"@]),
        p == Platform::Unix ==> silent_job(r, "netstat"@, seq!["-tulnp"@]),
{
    let inv = match p {
        Platform::Windows => invocation("netstat", vec!["-ano"]),
        Platform::Unix => invocation("netstat", vec!["-tulnp"]),
    };
    let r = Job { invocation: inv, speech: None };
    proof {
        match p {
            Platform::Windows => assert(arg_texts(r.invocation.args@) =~= seq!["-ano"@]),
            Platform::Unix => assert(arg_texts(r.invocation.args@) =~= seq!["-tulnp"@]),
        }
    }
    r
}

/// Lists the network interfaces.
pub fn list_networks(p: Platform) -> (r: Job)
    ensures
        p == Platform::Windows ==> silent_job(r, "ipconfig"@, seq!["/all"@]),
        p == Platform::Unix ==> silent_job(r, "ifconfig"@, Seq::<Seq<char>>::empty()),
{
    let inv = match p {
        Platform::Windows => invocation("ipconfig", vec!["/all"]),
        Platform::Unix => invocation("ifconfig", Vec::new()),
    };
    let r = Job { invocation: inv, speech: None };
    proof {
        match p {
            Platform::Windows => assert(arg_texts(r.invocation.args@) =~= seq!["/all"@]),
            Platform::Unix => assert(arg_texts(r.invocation.args@) =~= Seq::<Seq<char>>::empty()),
        }
    }
    r
}

/// Lists the drives and where they are mounted.
pub fn list_drives(p: Platform) -> (r: Job)
    ensures
        p == Platform::Windows ==> silent_job(r, "wmic"@, seq!["logicaldisk"@, "get"@, "caption"@]),
        p == Platform::Unix ==> silent_job(r, "lsblk"@, seq!["-o"@, "NAME,MOUNTPOINT"@]),
{
    let inv = match p {
        Platform::Windows => invocation("wmic", vec!["logicaldisk", "get", "caption"]),
        Platform::Unix => invocation("lsblk", vec!["-o", "NAME,MOUNTPOINT"]),
    };
    let r = Job { invocation: inv, speech: None };
    proof {
        match p {
            Platform::Windows => assert(arg_texts(r.invocation.args@) =~= seq!["logicaldisk"@, "get"@, "caption"@]),
            Platform::Unix => assert(arg_texts(r.invocation.args@) =~= seq!["-o"@, "NAME,MOUNTPOINT"@]),
        }
    }
    r
}

/// Lists the printers.
pub fn list_printers(p: Platform) -> (r: Job)
    ensures
        p == Platform::Windows ==> silent_job(r, "wmic"@, seq!["printer"@, "get"@, "name"@]),
        p == Platform::Unix ==> silent_job(r, "lpstat"@, seq!["-p"@]),
{
    let inv = match p {
        Platform::Windows => invocation("wmic", vec!["printer", "get", "name"]),
        Platform::Unix => invocation("lpstat", vec!["-p"]),
    };
    let r = Job { invocation: inv, speech: None };
    proof {
        match p {
            Platform::Windows => assert(arg_texts(r.invocation.args@) =~= seq!["printer"@, "get"@, "name"@]),
            Platform::Unix => assert(arg_texts(r.invocation.args@) =~= seq!["-p"@]),
        }
    }
    r
}

/// Lists the disks and their sizes.
pub fn list_disks(p: Platform) -> (r: Job)
    ensures
        p == Platform::Windows ==> silent_job(r, "wmic"@, seq!["diskdrive"@, "get"@, "caption,size"@]),
        p == Platform::Unix ==> silent_job(r, "lsblk"@, seq!["-o"@, "NAME,SIZE,TYPE"@]),
{
    let inv = match p {
        Platform::Windows => invocation("wmic", vec!["diskdrive", "get", "caption,size"]),
        Platform::Unix => invocation("lsblk", vec!["-o", "NAME,SIZE,TYPE"]),
    };
    let r = Job { invocation: inv, speech: None };
    proof {
        match p {
            Platform::Windows => assert(arg_texts(r.invocation.args@) =~= seq!["diskdrive"@, "get"@, "caption,size"@]),
            Platform::Unix => assert(arg_texts(r.invocation.args@) =~= seq!["-o"@, "NAME,SIZE,TYPE"@]),
        }
    }
    r
}

/// Lists the folders of the current directory.
pub fn list_folders(p: Platform) -> (r: Job)
    ensures
        p == Platform::Windows ==> silent_job(r, "cmd"@, seq!["/C"@, "dir /AD /B"@]),
        p == Platform::Unix ==> silent_job(r, "ls"@, seq!["-d"@, "*/"@]),
{
    let inv = match p {
        Platform::Windows => invocation("cmd", vec!["/C", "dir /AD /B"]),
        Platform::Unix => invocation("ls", vec!["-d", "*/"]),
    };
    let r = Job { invocation: inv, speech: None };
    proof {
        match p {
            Platform::Windows => assert(arg_texts(r.invocation.args@) =~= seq!["/C"@, "dir /AD /B"@]),
            Platform::Unix => assert(arg_texts(r.invocation.args@) =~= seq!["-d"@, "*/"@]),
        }
    }
    r
}

} // verus!
