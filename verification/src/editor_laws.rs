//! Properties of the VS Code files: the launch configuration runs what the
//! build task builds.

use vstd::prelude::*;
use crate::app::App;
use crate::editor::{
    binary_dir, build_task, launch_text, tasks_text, CMAKE_TASKS, LAUNCH_TEMPLATE, MESON_TASKS,
};
use crate::options::BuildSystem;
use crate::text::{
    contains, lacks, lacks_pair, lemma_contains_at, lemma_contains_extend, lemma_contains_suffix_triple,
    lemma_lacks_concat,
    lemma_lacks_pair_not_contains, lemma_replaced_absent, lemma_replaced_after_barrier,
    lemma_replaced_append_barrier, lemma_replaced_missing, lemma_replaced_split,
    lemma_replaced_split_at, lemma_replaced_untouched, lemma_replaced_whole, replaced,
};

verus! {

/// The start of `launch.json`, up to the configuration's name.
spec fn launch_head() -> Seq<char> {
    r#"{
  "version": "0.2.0",
  "configurations": [
    {
      "name": "Launch "#@
}

/// After the name: the debugger type and request.
spec fn launch_type_lines() -> Seq<char> {
    r#"",
      "type": "cppdbg",
      "request": "launch",
      "#@
}

/// The key of the program to launch.
spec fn program_key() -> Seq<char> {
    r#""program": ""#@
}

/// A closing quote.
spec fn closing_quote() -> Seq<char> {
    r#"""#@
}

/// Between the program and the working directory.
spec fn args_lines() -> Seq<char> {
    r#",
      "args": [],
      "#@
}

/// The key of the working directory.
spec fn cwd_key() -> Seq<char> {
    r#""cwd": ""#@
}

/// Between the working directory and the build task.
spec fn launch_settings() -> Seq<char> {
    r#",
      "stopAtEntry": false,
      "externalConsole": false,
      "MIMode": "gdb",
      "#@
}

/// The key of the task to run before launching.
spec fn task_key() -> Seq<char> {
    r#""preLaunchTask": ""#@
}

/// Between the build task and the Windows program.
spec fn windows_lines() -> Seq<char> {
    r#",
      "osx": {
        "MIMode": "lldb"
      },
      "windows": {
        "type": "cppvsdbg",
        "#@
}

/// The Windows executable's suffix and closing quote.
spec fn exe_close() -> Seq<char> {
    r#".exe""#@
}

/// The end of `launch.json`.
spec fn launch_close() -> Seq<char> {
    r#"
      }
    }
  ]
}
"#@
}

/// The command of the build task in `.vscode/tasks.json`.
pub open spec fn build_command(build: BuildSystem) -> Seq<char> {
    match build {
        BuildSystem::CMake => "cmake --build --preset default"@,
        BuildSystem::Meson => "meson compile -C build"@,
    }
}

/// The launch template once the project name is put in.
spec fn launch_after_name(app: App, project_name: Seq<char>) -> Seq<char> {
    launch_head() + project_name + (launch_type_lines() + program_key())
        + ("@BINARY_DIR@"@ + "/"@ + project_name) + (closing_quote() + args_lines() + cwd_key())
        + "@BINARY_DIR@"@ + (closing_quote() + launch_settings() + task_key()) + "@BUILD_TASK@"@
        + (closing_quote() + windows_lines() + program_key())
        + ("@BINARY_DIR@"@ + "/"@ + project_name) + (exe_close() + launch_close())
}

/// The launch template once the project name and the binary directory are
/// put in.
spec fn launch_after_binary(app: App, project_name: Seq<char>) -> Seq<char> {
    launch_head() + project_name + (launch_type_lines() + program_key())
        + (binary_dir(app.build_system) + "/"@ + project_name)
        + (closing_quote() + args_lines() + cwd_key()) + binary_dir(app.build_system)
        + (closing_quote() + launch_settings() + task_key()) + "@BUILD_TASK@"@
        + (closing_quote() + windows_lines() + program_key())
        + (binary_dir(app.build_system) + "/"@ + project_name) + (exe_close() + launch_close())
}

/// The launch template with every placeholder filled in.
spec fn launch_after_task(app: App, project_name: Seq<char>) -> Seq<char> {
    launch_head() + project_name + (launch_type_lines() + program_key())
        + (binary_dir(app.build_system) + "/"@ + project_name)
        + (closing_quote() + args_lines() + cwd_key()) + binary_dir(app.build_system)
        + (closing_quote() + launch_settings() + task_key()) + build_task(app.build_system)
        + (closing_quote() + windows_lines() + program_key())
        + (binary_dir(app.build_system) + "/"@ + project_name) + (exe_close() + launch_close())
}

/// How `launch.json` is laid out around its placeholders, and what the
/// pieces and the text put in hold.
proof fn lemma_launch_literals(app: App)
    ensures
        LAUNCH_TEMPLATE@ == launch_head() + "@PROJECT_NAME@"@
            + (launch_type_lines() + program_key())
        + ("@BINARY_DIR@"@ + "/"@ + "@PROJECT_NAME@"@)
        + (closing_quote() + args_lines() + cwd_key()) + "@BINARY_DIR@"@
        + (closing_quote() + launch_settings() + task_key()) + "@BUILD_TASK@"@
        + (closing_quote() + windows_lines() + program_key())
        + ("@BINARY_DIR@"@ + "/"@ + "@PROJECT_NAME@"@) + (exe_close() + launch_close()),
        lacks(launch_head(), '@'),
        launch_head().len() >= 14,
        lacks((launch_type_lines() + program_key()), '@'),
        (launch_type_lines() + program_key()).len() >= 14,
        lacks((closing_quote() + args_lines() + cwd_key()), '@'),
        (closing_quote() + args_lines() + cwd_key()).len() >= 14,
        lacks((closing_quote() + launch_settings() + task_key()), '@'),
        (closing_quote() + launch_settings() + task_key()).len() >= 14,
        lacks((closing_quote() + windows_lines() + program_key()), '@'),
        (closing_quote() + windows_lines() + program_key()).len() >= 14,
        lacks((exe_close() + launch_close()), '@'),
        (exe_close() + launch_close()).len() >= 14,
        lacks(binary_dir(app.build_system), '@'),
        lacks(build_task(app.build_system), '@'),
        lacks("/"@, '@'),
        "@PROJECT_NAME@"@[0] == '@' && "@PROJECT_NAME@"@.last() == '@' && "@PROJECT_NAME@"@.len() == 14,
        "@BINARY_DIR@"@[0] == '@' && "@BINARY_DIR@"@.last() == '@' && "@BINARY_DIR@"@.len() == 12,
        "@BUILD_TASK@"@[0] == '@' && "@BUILD_TASK@"@.last() == '@' && "@BUILD_TASK@"@.len() == 12,
        "@PROJECT_NAME@"@[1] == 'P' && "@BINARY_DIR@"@[1] == 'B' && "@BINARY_DIR@"@[2] == 'I',
        lacks_pair("@BUILD_TASK@"@, 'B', 'I'),
{
    reveal_strlit(r#"{
  "version": "0.2.0",
  "configurations": [
    {
      "name": "Launch @PROJECT_NAME@",
      "type": "cppdbg",
      "request": "launch",
      "program": "@BINARY_DIR@/@PROJECT_NAME@",
      "args": [],
      "cwd": "@BINARY_DIR@",
      "stopAtEntry": false,
      "externalConsole": false,
      "MIMode": "gdb",
      "preLaunchTask": "@BUILD_TASK@",
      "osx": {
        "MIMode": "lldb"
      },
      "windows": {
        "type": "cppvsdbg",
        "program": "@BINARY_DIR@/@PROJECT_NAME@.exe"
      }
    }
  ]
}
"#);
    reveal_strlit(r#"{
  "version": "0.2.0",
  "configurations": [
    {
      "name": "Launch "#);
    reveal_strlit(r#"",
      "type": "cppdbg",
      "request": "launch",
      "#);
    reveal_strlit(r#""program": ""#);
    reveal_strlit(r#"""#);
    reveal_strlit(r#",
      "args": [],
      "#);
    reveal_strlit(r#""cwd": ""#);
    reveal_strlit(r#",
      "stopAtEntry": false,
      "externalConsole": false,
      "MIMode": "gdb",
      "#);
    reveal_strlit(r#""preLaunchTask": ""#);
    reveal_strlit(r#",
      "osx": {
        "MIMode": "lldb"
      },
      "windows": {
        "type": "cppvsdbg",
        "#);
    reveal_strlit(r#".exe""#);
    reveal_strlit(r#"
      }
    }
  ]
}
"#);
    reveal_strlit("@PROJECT_NAME@");
    reveal_strlit("@BINARY_DIR@");
    reveal_strlit("@BUILD_TASK@");
    reveal_strlit("/");
    reveal_strlit("${workspaceFolder}/build/bin");
    reveal_strlit("${workspaceFolder}/build");
    reveal_strlit("CMake: Build");
    reveal_strlit("Meson: Build");
    let T0 = launch_head();
    let T1 = launch_type_lines() + program_key();
    let T2 = closing_quote() + args_lines() + cwd_key();
    let T3 = closing_quote() + launch_settings() + task_key();
    let T4 = closing_quote() + windows_lines() + program_key();
    let T5 = exe_close() + launch_close();
    let sn = "@PROJECT_NAME@"@;
    let sb = "@BINARY_DIR@"@;
    let st = "@BUILD_TASK@"@;
    let sl = "/"@;
    let empty = Seq::<char>::empty();
    let bin = binary_dir(app.build_system);
    let task = build_task(app.build_system);
    assert(LAUNCH_TEMPLATE@ == T0 + sn + T1 + (sb + sl + sn) + T2 + sb + T3 + st + T4 + (sb + sl + sn) + T5);
}

/// The first pass puts the project name in.
#[verifier::rlimit(40)]
proof fn lemma_launch_name_pass(app: App, project_name: Seq<char>)
    requires
        lacks(project_name, '@'),
    ensures
        replaced(LAUNCH_TEMPLATE@, "@PROJECT_NAME@"@, project_name) == launch_after_name(
            app,
            project_name,
        ),
{
    lemma_launch_literals(app);
    let T0 = launch_head();
    let T1 = launch_type_lines() + program_key();
    let T2 = closing_quote() + args_lines() + cwd_key();
    let T3 = closing_quote() + launch_settings() + task_key();
    let T4 = closing_quote() + windows_lines() + program_key();
    let T5 = exe_close() + launch_close();
    let sn = "@PROJECT_NAME@"@;
    let sb = "@BINARY_DIR@"@;
    let st = "@BUILD_TASK@"@;
    let sl = "/"@;
    let empty = Seq::<char>::empty();
    let bin = binary_dir(app.build_system);
    let task = build_task(app.build_system);
    reveal_strlit("@BINARY_DIR@");
    reveal_strlit("@PROJECT_NAME@");
    reveal_strlit("@BUILD_TASK@");
    reveal_strlit("/");
    lemma_replaced_whole(sn, project_name);
    lemma_replaced_absent(sb, sn, project_name);
    lemma_replaced_absent(st, sn, project_name);
    assert(!contains(sb + sl, sn));
    lemma_replaced_missing(sb + sl, sn, project_name);
    assert forall|i: int|
        0 <= i < (sb + sl).len() && (sb + sl).len() < i + sn.len() && i + sn.len() <= (sb + sl).len()
            + sn.len() implies #[trigger] (sb + sl + sn).subrange(i, i + sn.len()) != sn by {
        assert((sb + sl + sn).subrange(i, i + sn.len())[0] == (sb + sl + sn)[i]);
        assert((sb + sl + sn).subrange(i, i + sn.len())[1] == (sb + sl + sn)[i + 1]);
    }
    lemma_replaced_split_at(sb + sl, sn, sn, project_name);
    let s2 = T0 + sn;
    let s3 = s2 + T1;
    let s4 = s3 + (sb + sl + sn);
    let s5 = s4 + T2;
    let s6 = s5 + sb;
    let s7 = s6 + T3;
    let s8 = s7 + st;
    let s9 = s8 + T4;
    let s10 = s9 + (sb + sl + sn);
    let s11 = s10 + T5;
    lemma_replaced_append_barrier(empty, T0, sn, project_name);
    assert(empty + T0 == T0);
    lemma_replaced_after_barrier(empty, T0, sn, sn, project_name);
    assert(empty + T0 + sn == T0 + sn);
    lemma_replaced_append_barrier(s2, T1, sn, project_name);
    lemma_replaced_after_barrier(s2, T1, (sb + sl + sn), sn, project_name);
    lemma_replaced_append_barrier(s4, T2, sn, project_name);
    lemma_replaced_after_barrier(s4, T2, sb, sn, project_name);
    lemma_replaced_append_barrier(s6, T3, sn, project_name);
    lemma_replaced_after_barrier(s6, T3, st, sn, project_name);
    lemma_replaced_append_barrier(s8, T4, sn, project_name);
    lemma_replaced_after_barrier(s8, T4, (sb + sl + sn), sn, project_name);
    lemma_replaced_append_barrier(s10, T5, sn, project_name);
}

/// The second pass puts the binary directory in.
proof fn lemma_launch_binary_pass(app: App, project_name: Seq<char>)
    requires
        lacks(project_name, '@'),
    ensures
        replaced(launch_after_name(app, project_name), "@BINARY_DIR@"@, binary_dir(app.build_system))
            == launch_after_binary(app, project_name),
{
    lemma_launch_literals(app);
    let T0 = launch_head();
    let T1 = launch_type_lines() + program_key();
    let T2 = closing_quote() + args_lines() + cwd_key();
    let T3 = closing_quote() + launch_settings() + task_key();
    let T4 = closing_quote() + windows_lines() + program_key();
    let T5 = exe_close() + launch_close();
    let sn = "@PROJECT_NAME@"@;
    let sb = "@BINARY_DIR@"@;
    let st = "@BUILD_TASK@"@;
    let sl = "/"@;
    let empty = Seq::<char>::empty();
    let bin = binary_dir(app.build_system);
    let task = build_task(app.build_system);
    lemma_replaced_untouched(project_name, sb, bin);
    lemma_replaced_whole(sb, bin);
    lemma_lacks_pair_not_contains(st, sb, 1);
    lemma_replaced_missing(st, sb, bin);
    lemma_lacks_concat(sl, project_name, '@');
    lemma_replaced_untouched(sl + project_name, sb, bin);
    lemma_replaced_split(sb, sl + project_name, sb, bin);
    assert(sb + sl + project_name == sb + (sl + project_name));
    assert(bin + (sl + project_name) == bin + sl + project_name);
    let s2 = T0 + project_name;
    let s3 = s2 + T1;
    let s4 = s3 + (sb + sl + project_name);
    let s5 = s4 + T2;
    let s6 = s5 + sb;
    let s7 = s6 + T3;
    let s8 = s7 + st;
    let s9 = s8 + T4;
    let s10 = s9 + (sb + sl + project_name);
    let s11 = s10 + T5;
    lemma_replaced_append_barrier(empty, T0, sb, bin);
    assert(empty + T0 == T0);
    lemma_replaced_after_barrier(empty, T0, project_name, sb, bin);
    assert(empty + T0 + project_name == T0 + project_name);
    lemma_replaced_append_barrier(s2, T1, sb, bin);
    lemma_replaced_after_barrier(s2, T1, (sb + sl + project_name), sb, bin);
    lemma_replaced_append_barrier(s4, T2, sb, bin);
    lemma_replaced_after_barrier(s4, T2, sb, sb, bin);
    lemma_replaced_append_barrier(s6, T3, sb, bin);
    lemma_replaced_after_barrier(s6, T3, st, sb, bin);
    lemma_replaced_append_barrier(s8, T4, sb, bin);
    lemma_replaced_after_barrier(s8, T4, (sb + sl + project_name), sb, bin);
    lemma_replaced_append_barrier(s10, T5, sb, bin);
}

/// The third pass puts the build task in.
proof fn lemma_launch_task_pass(app: App, project_name: Seq<char>)
    requires
        lacks(project_name, '@'),
    ensures
        replaced(launch_after_binary(app, project_name), "@BUILD_TASK@"@, build_task(app.build_system))
            == launch_after_task(app, project_name),
{
    lemma_launch_literals(app);
    let T0 = launch_head();
    let T1 = launch_type_lines() + program_key();
    let T2 = closing_quote() + args_lines() + cwd_key();
    let T3 = closing_quote() + launch_settings() + task_key();
    let T4 = closing_quote() + windows_lines() + program_key();
    let T5 = exe_close() + launch_close();
    let sn = "@PROJECT_NAME@"@;
    let sb = "@BINARY_DIR@"@;
    let st = "@BUILD_TASK@"@;
    let sl = "/"@;
    let empty = Seq::<char>::empty();
    let bin = binary_dir(app.build_system);
    let task = build_task(app.build_system);
    lemma_replaced_untouched(project_name, st, task);
    lemma_replaced_untouched(bin, st, task);
    lemma_lacks_concat(bin, sl, '@');
    lemma_lacks_concat(bin + sl, project_name, '@');
    lemma_replaced_untouched(bin + sl + project_name, st, task);
    lemma_replaced_whole(st, task);
    let s2 = T0 + project_name;
    let s3 = s2 + T1;
    let s4 = s3 + (bin + sl + project_name);
    let s5 = s4 + T2;
    let s6 = s5 + bin;
    let s7 = s6 + T3;
    let s8 = s7 + st;
    let s9 = s8 + T4;
    let s10 = s9 + (bin + sl + project_name);
    let s11 = s10 + T5;
    lemma_replaced_append_barrier(empty, T0, st, task);
    assert(empty + T0 == T0);
    lemma_replaced_after_barrier(empty, T0, project_name, st, task);
    assert(empty + T0 + project_name == T0 + project_name);
    lemma_replaced_append_barrier(s2, T1, st, task);
    lemma_replaced_after_barrier(s2, T1, (bin + sl + project_name), st, task);
    lemma_replaced_append_barrier(s4, T2, st, task);
    lemma_replaced_after_barrier(s4, T2, bin, st, task);
    lemma_replaced_append_barrier(s6, T3, st, task);
    lemma_replaced_after_barrier(s6, T3, st, st, task);
    lemma_replaced_append_barrier(s8, T4, st, task);
    lemma_replaced_after_barrier(s8, T4, (bin + sl + project_name), st, task);
    lemma_replaced_append_barrier(s10, T5, st, task);
}

/// `launch.json` with its placeholders filled in.
proof fn lemma_launch_filled(app: App, project_name: Seq<char>)
    requires
        lacks(project_name, '@'),
    ensures
        launch_text(app, project_name) == launch_after_task(app, project_name),
{
    lemma_launch_name_pass(app, project_name);
    lemma_launch_binary_pass(app, project_name);
    lemma_launch_task_pass(app, project_name);
}

/// The keys and the quote around the values of `launch.json`.
proof fn lemma_launch_keys()
    ensures
        program_key() == "\"program\": \""@,
        closing_quote() == "\""@,
        cwd_key() == "\"cwd\": \""@,
        task_key() == "\"preLaunchTask\": \""@,
        exe_close() == ".exe\""@,
{
    reveal_strlit("\"program\": \"");
    reveal_strlit("\"");
    reveal_strlit("\"cwd\": \"");
    reveal_strlit("\"preLaunchTask\": \"");
    reveal_strlit(".exe\"");
    reveal_strlit(r#""program": ""#);
    reveal_strlit(r#"""#);
    reveal_strlit(r#""cwd": ""#);
    reveal_strlit(r#""preLaunchTask": ""#);
    reveal_strlit(r#".exe""#);
}

/// `launch.json` with its placeholders filled in, piece by piece.
#[verifier::rlimit(40)]
proof fn lemma_launch_flat(app: App, project_name: Seq<char>)
    requires
        lacks(project_name, '@'),
    ensures
        launch_text(app, project_name) == launch_head()
            + project_name
            + launch_type_lines()
            + program_key()
            + (binary_dir(app.build_system) + "/"@ + project_name)
            + closing_quote()
            + args_lines()
            + cwd_key()
            + binary_dir(app.build_system)
            + closing_quote()
            + launch_settings()
            + task_key()
            + build_task(app.build_system)
            + closing_quote()
            + windows_lines()
            + program_key()
            + (binary_dir(app.build_system) + "/"@ + project_name)
            + exe_close()
            + launch_close(),
{
    lemma_launch_filled(app, project_name);
}

/// `launch.json` names the program to launch.
proof fn lemma_launch_program(app: App, project_name: Seq<char>)
    requires
        lacks(project_name, '@'),
    ensures
        contains(
            launch_text(app, project_name),
            program_key() + (binary_dir(app.build_system) + "/"@ + project_name) + closing_quote(),
        ),
{
    lemma_launch_flat(app, project_name);
    let bin = binary_dir(app.build_system);
    let task = build_task(app.build_system);
    let unit = bin + "/"@ + project_name;
    let s2 = launch_head() + project_name;
    let s3 = s2 + launch_type_lines();
    let s4 = s3 + program_key();
    let s5 = s4 + unit;
    let s6 = s5 + closing_quote();
    let s7 = s6 + args_lines();
    let s8 = s7 + cwd_key();
    let s9 = s8 + bin;
    let s10 = s9 + closing_quote();
    let s11 = s10 + launch_settings();
    let s12 = s11 + task_key();
    let s13 = s12 + task;
    let s14 = s13 + closing_quote();
    let s15 = s14 + windows_lines();
    let s16 = s15 + program_key();
    let s17 = s16 + unit;
    let s18 = s17 + exe_close();
    let s19 = s18 + launch_close();
    lemma_contains_suffix_triple(s3, program_key(), unit, closing_quote());
    lemma_contains_extend(s6, args_lines(), program_key() + unit + closing_quote());
    lemma_contains_extend(s7, cwd_key(), program_key() + unit + closing_quote());
    lemma_contains_extend(s8, bin, program_key() + unit + closing_quote());
    lemma_contains_extend(s9, closing_quote(), program_key() + unit + closing_quote());
    lemma_contains_extend(s10, launch_settings(), program_key() + unit + closing_quote());
    lemma_contains_extend(s11, task_key(), program_key() + unit + closing_quote());
    lemma_contains_extend(s12, task, program_key() + unit + closing_quote());
    lemma_contains_extend(s13, closing_quote(), program_key() + unit + closing_quote());
    lemma_contains_extend(s14, windows_lines(), program_key() + unit + closing_quote());
    lemma_contains_extend(s15, program_key(), program_key() + unit + closing_quote());
    lemma_contains_extend(s16, unit, program_key() + unit + closing_quote());
    lemma_contains_extend(s17, exe_close(), program_key() + unit + closing_quote());
    lemma_contains_extend(s18, launch_close(), program_key() + unit + closing_quote());
}

/// `launch.json` names the working directory.
proof fn lemma_launch_cwd(app: App, project_name: Seq<char>)
    requires
        lacks(project_name, '@'),
    ensures
        contains(
            launch_text(app, project_name),
            cwd_key() + binary_dir(app.build_system) + closing_quote(),
        ),
{
    lemma_launch_flat(app, project_name);
    let bin = binary_dir(app.build_system);
    let task = build_task(app.build_system);
    let unit = bin + "/"@ + project_name;
    let s2 = launch_head() + project_name;
    let s3 = s2 + launch_type_lines();
    let s4 = s3 + program_key();
    let s5 = s4 + unit;
    let s6 = s5 + closing_quote();
    let s7 = s6 + args_lines();
    let s8 = s7 + cwd_key();
    let s9 = s8 + bin;
    let s10 = s9 + closing_quote();
    let s11 = s10 + launch_settings();
    let s12 = s11 + task_key();
    let s13 = s12 + task;
    let s14 = s13 + closing_quote();
    let s15 = s14 + windows_lines();
    let s16 = s15 + program_key();
    let s17 = s16 + unit;
    let s18 = s17 + exe_close();
    let s19 = s18 + launch_close();
    lemma_contains_suffix_triple(s7, cwd_key(), bin, closing_quote());
    lemma_contains_extend(s10, launch_settings(), cwd_key() + bin + closing_quote());
    lemma_contains_extend(s11, task_key(), cwd_key() + bin + closing_quote());
    lemma_contains_extend(s12, task, cwd_key() + bin + closing_quote());
    lemma_contains_extend(s13, closing_quote(), cwd_key() + bin + closing_quote());
    lemma_contains_extend(s14, windows_lines(), cwd_key() + bin + closing_quote());
    lemma_contains_extend(s15, program_key(), cwd_key() + bin + closing_quote());
    lemma_contains_extend(s16, unit, cwd_key() + bin + closing_quote());
    lemma_contains_extend(s17, exe_close(), cwd_key() + bin + closing_quote());
    lemma_contains_extend(s18, launch_close(), cwd_key() + bin + closing_quote());
}

/// `launch.json` names the task to run first.
proof fn lemma_launch_task(app: App, project_name: Seq<char>)
    requires
        lacks(project_name, '@'),
    ensures
        contains(
            launch_text(app, project_name),
            task_key() + build_task(app.build_system) + closing_quote(),
        ),
{
    lemma_launch_flat(app, project_name);
    let bin = binary_dir(app.build_system);
    let task = build_task(app.build_system);
    let unit = bin + "/"@ + project_name;
    let s2 = launch_head() + project_name;
    let s3 = s2 + launch_type_lines();
    let s4 = s3 + program_key();
    let s5 = s4 + unit;
    let s6 = s5 + closing_quote();
    let s7 = s6 + args_lines();
    let s8 = s7 + cwd_key();
    let s9 = s8 + bin;
    let s10 = s9 + closing_quote();
    let s11 = s10 + launch_settings();
    let s12 = s11 + task_key();
    let s13 = s12 + task;
    let s14 = s13 + closing_quote();
    let s15 = s14 + windows_lines();
    let s16 = s15 + program_key();
    let s17 = s16 + unit;
    let s18 = s17 + exe_close();
    let s19 = s18 + launch_close();
    lemma_contains_suffix_triple(s11, task_key(), task, closing_quote());
    lemma_contains_extend(s14, windows_lines(), task_key() + task + closing_quote());
    lemma_contains_extend(s15, program_key(), task_key() + task + closing_quote());
    lemma_contains_extend(s16, unit, task_key() + task + closing_quote());
    lemma_contains_extend(s17, exe_close(), task_key() + task + closing_quote());
    lemma_contains_extend(s18, launch_close(), task_key() + task + closing_quote());
}

/// `launch.json` names the program to launch on Windows.
proof fn lemma_launch_windows_program(app: App, project_name: Seq<char>)
    requires
        lacks(project_name, '@'),
    ensures
        contains(
            launch_text(app, project_name),
            program_key() + (binary_dir(app.build_system) + "/"@ + project_name) + exe_close(),
        ),
{
    lemma_launch_flat(app, project_name);
    let bin = binary_dir(app.build_system);
    let task = build_task(app.build_system);
    let unit = bin + "/"@ + project_name;
    let s2 = launch_head() + project_name;
    let s3 = s2 + launch_type_lines();
    let s4 = s3 + program_key();
    let s5 = s4 + unit;
    let s6 = s5 + closing_quote();
    let s7 = s6 + args_lines();
    let s8 = s7 + cwd_key();
    let s9 = s8 + bin;
    let s10 = s9 + closing_quote();
    let s11 = s10 + launch_settings();
    let s12 = s11 + task_key();
    let s13 = s12 + task;
    let s14 = s13 + closing_quote();
    let s15 = s14 + windows_lines();
    let s16 = s15 + program_key();
    let s17 = s16 + unit;
    let s18 = s17 + exe_close();
    let s19 = s18 + launch_close();
    lemma_contains_suffix_triple(s15, program_key(), unit, exe_close());
    lemma_contains_extend(s18, launch_close(), program_key() + unit + exe_close());
}


/// The build task of `tasks.json` is its build-group task.
proof fn lemma_tasks_build_entry(app: App)
    ensures
        contains(
            tasks_text(app.build_system),
            "\"label\": \""@ + build_task(app.build_system) + "\",\n      \"type\": \"shell\",\n      \"command\": \""@
                + build_command(app.build_system) + "\",\n      \"group\": \"build\""@,
        ),
{
    let task = build_task(app.build_system);
    reveal_strlit("CMake: Build");
    reveal_strlit("Meson: Build");
    reveal_strlit("\"label\": \"");
    reveal_strlit("\",\n      \"type\": \"shell\",\n      \"command\": \"");
    reveal_strlit("\",\n      \"group\": \"build\"");
    reveal_strlit("cmake --build --preset default");
    reveal_strlit("meson compile -C build");
    let wanted = "\"label\": \""@ + task + "\",\n      \"type\": \"shell\",\n      \"command\": \""@
        + build_command(app.build_system) + "\",\n      \"group\": \"build\""@;
    match app.build_system {
        BuildSystem::CMake => {
            reveal_strlit(r#"{
  "version": "2.0.0",
  "tasks": [
    {
      "label": "CMake: Configure",
      "type": "shell",
      "command": "cmake --preset default"
    },
    {
      "label": "CMake: Build",
      "type": "shell",
      "command": "cmake --build --preset default",
      "group": "build",
      "dependsOn": ["CMake: Configure"]
    }
  ]
}
"#);
            assert(CMAKE_TASKS@.subrange(162, 162 + wanted.len() as int) == wanted);
            lemma_contains_at(CMAKE_TASKS@, wanted, 162);
        },
        BuildSystem::Meson => {
            reveal_strlit(r#"{
  "version": "2.0.0",
  "tasks": [
    {
      "label": "Meson: Setup",
      "type": "shell",
      "command": "meson setup build"
    },
    {
      "label": "Meson: Build",
      "type": "shell",
      "command": "meson compile -C build",
      "group": "build",
      "dependsOn": ["Meson: Setup"]
    }
  ]
}
"#);
            assert(MESON_TASKS@.subrange(153, 153 + wanted.len() as int) == wanted);
            lemma_contains_at(MESON_TASKS@, wanted, 153);
        },
    }
}

/// For a project name without `@` (the character that marks the
/// template's placeholders), `launch.json` launches the program that the
/// build system writes, `<dir>/<name>` (`<dir>/<name>.exe` on Windows), from
/// the directory `<dir>` it is written to, and first runs the build task,
/// which `tasks.json` defines as the build-group task.
pub proof fn launch_runs_what_tasks_build(app: App, project_name: Seq<char>)
    requires
        lacks(project_name, '@'),
    ensures
        contains(
            launch_text(app, project_name),
            "\"program\": \""@ + binary_dir(app.build_system) + "/"@ + project_name + "\""@,
        ),
        contains(launch_text(app, project_name), "\"cwd\": \""@ + binary_dir(app.build_system) + "\""@),
        contains(
            launch_text(app, project_name),
            "\"program\": \""@ + binary_dir(app.build_system) + "/"@ + project_name + ".exe\""@,
        ),
        contains(
            launch_text(app, project_name),
            "\"preLaunchTask\": \""@ + build_task(app.build_system) + "\""@,
        ),
        contains(
            tasks_text(app.build_system),
            "\"label\": \""@ + build_task(app.build_system) + "\",\n      \"type\": \"shell\",\n      \"command\": \""@
                + build_command(app.build_system) + "\",\n      \"group\": \"build\""@,
        ),
{
    lemma_launch_keys();
    lemma_launch_program(app, project_name);
    lemma_launch_cwd(app, project_name);
    lemma_launch_task(app, project_name);
    lemma_launch_windows_program(app, project_name);
    lemma_tasks_build_entry(app);
    let bin = binary_dir(app.build_system);
    let sl = "/"@;
    assert("\"program\": \""@ + (bin + sl + project_name) + "\""@
        == "\"program\": \""@ + bin + "/"@ + project_name + "\""@);
    assert("\"program\": \""@ + (bin + sl + project_name) + ".exe\""@
        == "\"program\": \""@ + bin + "/"@ + project_name + ".exe\""@);
}

} // verus!
