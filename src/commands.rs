//! The commands that the backend knows, each under its one name.
use vstd::prelude::*;
use crate::words::is_space;

verus! {

/// A command that the backend can carry out.
#[derive(Clone, Copy, Debug, PartialEq, Eq, Structural)]
pub enum CommandKind {
    Hello,
    WhoCreatedYou,
    CurrentDay,
    CurrentDate,
    CurrentTime,
    ShowCalendar,
    GoHome,
    RootDirectory,
    ListFiles,
    CurrentDirectory,
    GoMyDirectory,
    DiskUsage,
    MemoryUsage,
    SwapMemory,
    FreeMemory,
    CpuUsage,
    PsCommand,
    DfCommand,
    Shutdown,
    Restart,
    Logout,
    Hibernate,
    Sleep,
    Help,
    ListUsers,
    ListServices,
    ListPorts,
    ListNetworks,
    ListDrives,
    ListPrinters,
    ListDisks,
    ListFolders,
    OpenFile,
    CreateFile,
    DeleteFile,
    PrintFileContent,
    CreateSymlink,
    SearchFileOrFolder,
    VolumeUp,
    VolumeDown,
    CompileCode,
    RunCode,
    NavigateDirectories,
    GetUptime,
    CommandHistory,
    Exit,
}

/// The name under which a command is registered.
pub open spec fn spec_name(k: CommandKind) -> Seq<char> {
    match k {
        CommandKind::Hello => "hello"@,
        CommandKind::WhoCreatedYou => "who_created_you"@,
        CommandKind::CurrentDay => "current_day"@,
        CommandKind::CurrentDate => "current_date"@,
        CommandKind::CurrentTime => "current_time"@,
        CommandKind::ShowCalendar => "show_calendar"@,
        CommandKind::GoHome => "go_home"@,
        CommandKind::RootDirectory => "root_directory"@,
        CommandKind::ListFiles => "list_files"@,
        CommandKind::CurrentDirectory => "current_directory"@,
        CommandKind::GoMyDirectory => "go_my_directory"@,
        CommandKind::DiskUsage => "disk_usage"@,
        CommandKind::MemoryUsage => "memory_usage"@,
        CommandKind::SwapMemory => "swap_memory"@,
        CommandKind::FreeMemory => "free_memory"@,
        CommandKind::CpuUsage => "cpu_usage"@,
        CommandKind::PsCommand => "ps_command"@,
        CommandKind::DfCommand => "df_command"@,
        CommandKind::Shutdown => "shutdown"@,
        CommandKind::Restart => "restart"@,
        CommandKind::Logout => "logout"@,
        CommandKind::Hibernate => "hibernate"@,
        CommandKind::Sleep => "sleep"@,
        CommandKind::Help => "help"@,
        CommandKind::ListUsers => "list_users"@,
        CommandKind::ListServices => "list_services"@,
        CommandKind::ListPorts => "list_ports"@,
        CommandKind::ListNetworks => "list_networks"@,
        CommandKind::ListDrives => "list_drives"@,
        CommandKind::ListPrinters => "list_printers"@,
        CommandKind::ListDisks => "list_disks"@,
        CommandKind::ListFolders => "list_folders"@,
        CommandKind::OpenFile => "open_file"@,
        CommandKind::CreateFile => "create_file"@,
        CommandKind::DeleteFile => "delete_file"@,
        CommandKind::PrintFileContent => "print_file_content"@,
        CommandKind::CreateSymlink => "create_symlink"@,
        CommandKind::SearchFileOrFolder => "search_file_or_folder"@,
        CommandKind::VolumeUp => "volume_up"@,
        CommandKind::VolumeDown => "volume_down"@,
        CommandKind::CompileCode => "compile_code"@,
        CommandKind::RunCode => "run_code"@,
        CommandKind::NavigateDirectories => "navigate_directories"@,
        CommandKind::GetUptime => "get_uptime"@,
        CommandKind::CommandHistory => "command_history"@,
        CommandKind::Exit => "exit"@,
    }
}

impl CommandKind {
    /// The name under which this command is registered.
    pub fn name(&self) -> (r: &'static str)
        ensures
            r@ == spec_name(*self),
    {
        match self {
            CommandKind::Hello => "hello",
            CommandKind::WhoCreatedYou => "who_created_you",
            CommandKind::CurrentDay => "current_day",
            CommandKind::CurrentDate => "current_date",
            CommandKind::CurrentTime => "current_time",
            CommandKind::ShowCalendar => "show_calendar",
            CommandKind::GoHome => "go_home",
            CommandKind::RootDirectory => "root_directory",
            CommandKind::ListFiles => "list_files",
            CommandKind::CurrentDirectory => "current_directory",
            CommandKind::GoMyDirectory => "go_my_directory",
            CommandKind::DiskUsage => "disk_usage",
            CommandKind::MemoryUsage => "memory_usage",
            CommandKind::SwapMemory => "swap_memory",
            CommandKind::FreeMemory => "free_memory",
            CommandKind::CpuUsage => "cpu_usage",
            CommandKind::PsCommand => "ps_command",
            CommandKind::DfCommand => "df_command",
            CommandKind::Shutdown => "shutdown",
            CommandKind::Restart => "restart",
            CommandKind::Logout => "logout",
            CommandKind::Hibernate => "hibernate",
            CommandKind::Sleep => "sleep",
            CommandKind::Help => "help",
            CommandKind::ListUsers => "list_users",
            CommandKind::ListServices => "list_services",
            CommandKind::ListPorts => "list_ports",
            CommandKind::ListNetworks => "list_networks",
            CommandKind::ListDrives => "list_drives",
            CommandKind::ListPrinters => "list_printers",
            CommandKind::ListDisks => "list_disks",
            CommandKind::ListFolders => "list_folders",
            CommandKind::OpenFile => "open_file",
            CommandKind::CreateFile => "create_file",
            CommandKind::DeleteFile => "delete_file",
            CommandKind::PrintFileContent => "print_file_content",
            CommandKind::CreateSymlink => "create_symlink",
            CommandKind::SearchFileOrFolder => "search_file_or_folder",
            CommandKind::VolumeUp => "volume_up",
            CommandKind::VolumeDown => "volume_down",
            CommandKind::CompileCode => "compile_code",
            CommandKind::RunCode => "run_code",
            CommandKind::NavigateDirectories => "navigate_directories",
            CommandKind::GetUptime => "get_uptime",
            CommandKind::CommandHistory => "command_history",
            CommandKind::Exit => "exit",
        }
    }
}

/// No command's name holds whitespace, and none is empty.
pub proof fn names_are_single_words(k: CommandKind)
    ensures
        spec_name(k).len() > 0,
        forall|i: int| 0 <= i < spec_name(k).len() ==> !is_space(#[trigger] spec_name(k)[i]),
{
    match k {
        CommandKind::Hello => reveal_strlit("hello"),
        CommandKind::WhoCreatedYou => reveal_strlit("who_created_you"),
        CommandKind::CurrentDay => reveal_strlit("current_day"),
        CommandKind::CurrentDate => reveal_strlit("current_date"),
        CommandKind::CurrentTime => reveal_strlit("current_time"),
        CommandKind::ShowCalendar => reveal_strlit("show_calendar"),
        CommandKind::GoHome => reveal_strlit("go_home"),
        CommandKind::RootDirectory => reveal_strlit("root_directory"),
        CommandKind::ListFiles => reveal_strlit("list_files"),
        CommandKind::CurrentDirectory => reveal_strlit("current_directory"),
        CommandKind::GoMyDirectory => reveal_strlit("go_my_directory"),
        CommandKind::DiskUsage => reveal_strlit("disk_usage"),
        CommandKind::MemoryUsage => reveal_strlit("memory_usage"),
        CommandKind::SwapMemory => reveal_strlit("swap_memory"),
        CommandKind::FreeMemory => reveal_strlit("free_memory"),
        CommandKind::CpuUsage => reveal_strlit("cpu_usage"),
        CommandKind::PsCommand => reveal_strlit("ps_command"),
        CommandKind::DfCommand => reveal_strlit("df_command"),
        CommandKind::Shutdown => reveal_strlit("shutdown"),
        CommandKind::Restart => reveal_strlit("restart"),
        CommandKind::Logout => reveal_strlit("logout"),
        CommandKind::Hibernate => reveal_strlit("hibernate"),
        CommandKind::Sleep => reveal_strlit("sleep"),
        CommandKind::Help => reveal_strlit("help"),
        CommandKind::ListUsers => reveal_strlit("list_users"),
        CommandKind::ListServices => reveal_strlit("list_services"),
        CommandKind::ListPorts => reveal_strlit("list_ports"),
        CommandKind::ListNetworks => reveal_strlit("list_networks"),
        CommandKind::ListDrives => reveal_strlit("list_drives"),
        CommandKind::ListPrinters => reveal_strlit("list_printers"),
        CommandKind::ListDisks => reveal_strlit("list_disks"),
        CommandKind::ListFolders => reveal_strlit("list_folders"),
        CommandKind::OpenFile => reveal_strlit("open_file"),
        CommandKind::CreateFile => reveal_strlit("create_file"),
        CommandKind::DeleteFile => reveal_strlit("delete_file"),
        CommandKind::PrintFileContent => reveal_strlit("print_file_content"),
        CommandKind::CreateSymlink => reveal_strlit("create_symlink"),
        CommandKind::SearchFileOrFolder => reveal_strlit("search_file_or_folder"),
        CommandKind::VolumeUp => reveal_strlit("volume_up"),
        CommandKind::VolumeDown => reveal_strlit("volume_down"),
        CommandKind::CompileCode => reveal_strlit("compile_code"),
        CommandKind::RunCode => reveal_strlit("run_code"),
        CommandKind::NavigateDirectories => reveal_strlit("navigate_directories"),
        CommandKind::GetUptime => reveal_strlit("get_uptime"),
        CommandKind::CommandHistory => reveal_strlit("command_history"),
        CommandKind::Exit => reveal_strlit("exit"),
    }
}

/// Every command, each once.
pub fn all_commands() -> (r: Vec<CommandKind>)
    ensures
        forall|k: CommandKind| r@.contains(k),
{
    let r = vec![
        CommandKind::Hello,
        CommandKind::WhoCreatedYou,
        CommandKind::CurrentDay,
        CommandKind::CurrentDate,
        CommandKind::CurrentTime,
        CommandKind::ShowCalendar,
        CommandKind::GoHome,
        CommandKind::RootDirectory,
        CommandKind::ListFiles,
        CommandKind::CurrentDirectory,
        CommandKind::GoMyDirectory,
        CommandKind::DiskUsage,
        CommandKind::MemoryUsage,
        CommandKind::SwapMemory,
        CommandKind::FreeMemory,
        CommandKind::CpuUsage,
        CommandKind::PsCommand,
        CommandKind::DfCommand,
        CommandKind::Shutdown,
        CommandKind::Restart,
        CommandKind::Logout,
        CommandKind::Hibernate,
        CommandKind::Sleep,
        CommandKind::Help,
        CommandKind::ListUsers,
        CommandKind::ListServices,
        CommandKind::ListPorts,
        CommandKind::ListNetworks,
        CommandKind::ListDrives,
        CommandKind::ListPrinters,
        CommandKind::ListDisks,
        CommandKind::ListFolders,
        CommandKind::OpenFile,
        CommandKind::CreateFile,
        CommandKind::DeleteFile,
        CommandKind::PrintFileContent,
        CommandKind::CreateSymlink,
        CommandKind::SearchFileOrFolder,
        CommandKind::VolumeUp,
        CommandKind::VolumeDown,
        CommandKind::CompileCode,
        CommandKind::RunCode,
        CommandKind::NavigateDirectories,
        CommandKind::GetUptime,
        CommandKind::CommandHistory,
        CommandKind::Exit,
    ];
    proof {
        assert forall|k: CommandKind| r@.contains(k) by {
            match k {
                CommandKind::Hello => assert(r@[0] == k),
                CommandKind::WhoCreatedYou => assert(r@[1] == k),
                CommandKind::CurrentDay => assert(r@[2] == k),
                CommandKind::CurrentDate => assert(r@[3] == k),
                CommandKind::CurrentTime => assert(r@[4] == k),
                CommandKind::ShowCalendar => assert(r@[5] == k),
                CommandKind::GoHome => assert(r@[6] == k),
                CommandKind::RootDirectory => assert(r@[7] == k),
                CommandKind::ListFiles => assert(r@[8] == k),
                CommandKind::CurrentDirectory => assert(r@[9] == k),
                CommandKind::GoMyDirectory => assert(r@[10] == k),
                CommandKind::DiskUsage => assert(r@[11] == k),
                CommandKind::MemoryUsage => assert(r@[12] == k),
                CommandKind::SwapMemory => assert(r@[13] == k),
                CommandKind::FreeMemory => assert(r@[14] == k),
                CommandKind::CpuUsage => assert(r@[15] == k),
                CommandKind::PsCommand => assert(r@[16] == k),
                CommandKind::DfCommand => assert(r@[17] == k),
                CommandKind::Shutdown => assert(r@[18] == k),
                CommandKind::Restart => assert(r@[19] == k),
                CommandKind::Logout => assert(r@[20] == k),
                CommandKind::Hibernate => assert(r@[21] == k),
                CommandKind::Sleep => assert(r@[22] == k),
                CommandKind::Help => assert(r@[23] == k),
                CommandKind::ListUsers => assert(r@[24] == k),
                CommandKind::ListServices => assert(r@[25] == k),
                CommandKind::ListPorts => assert(r@[26] == k),
                CommandKind::ListNetworks => assert(r@[27] == k),
                CommandKind::ListDrives => assert(r@[28] == k),
                CommandKind::ListPrinters => assert(r@[29] == k),
                CommandKind::ListDisks => assert(r@[30] == k),
                CommandKind::ListFolders => assert(r@[31] == k),
                CommandKind::OpenFile => assert(r@[32] == k),
                CommandKind::CreateFile => assert(r@[33] == k),
                CommandKind::DeleteFile => assert(r@[34] == k),
                CommandKind::PrintFileContent => assert(r@[35] == k),
                CommandKind::CreateSymlink => assert(r@[36] == k),
                CommandKind::SearchFileOrFolder => assert(r@[37] == k),
                CommandKind::VolumeUp => assert(r@[38] == k),
                CommandKind::VolumeDown => assert(r@[39] == k),
                CommandKind::CompileCode => assert(r@[40] == k),
                CommandKind::RunCode => assert(r@[41] == k),
                CommandKind::NavigateDirectories => assert(r@[42] == k),
                CommandKind::GetUptime => assert(r@[43] == k),
                CommandKind::CommandHistory => assert(r@[44] == k),
                CommandKind::Exit => assert(r@[45] == k),
            }
        }
    }
    r
}

} // verus!
