//! What the pipeline hands to the worker is what the worker accepts.

use vstd::prelude::*;

use crate::digest;
use crate::flash::PreparedImageView;
use crate::paths;
use crate::pipeline;
use crate::pipeline::PipelineRequest;
use crate::worker;
use crate::worker::session;
use crate::worker::session::SessionCheckView;
use crate::worker::windows_paths;
use crate::worker::windows_session;
use crate::worker::windows_session::WindowsCheckView;
use crate::worker::{Platform, WorkerJob};

verus! {

broadcast use vstd::seq_lib::group_seq_properties;

proof fn nothing_refused_together(first: Seq<SessionCheckView>, second: Seq<SessionCheckView>)
    requires
        session::refuses_nothing(first),
        session::refuses_nothing(second),
    ensures
        session::refuses_nothing(first + second),
{
}

proof fn member_is_in_its_session(directory: Seq<char>, session: Seq<char>, name: Seq<char>)
    requires
        directory.len() > 0,
        paths::path_view(directory).is_clean_absolute(),
        paths::path_view(session) == paths::path_view(directory),
        paths::is_plain_name(name),
    ensures
        session::is_session_member(session, paths::member_text(directory, name), name),
        paths::path_view(paths::member_text(directory, name)).absolute,
{
    paths::member_lies_in_its_directory(directory, name);
    let member = paths::path_view(paths::member_text(directory, name));
    assert forall|i: int| 0 <= i < member.parts.len() implies #[trigger] member.parts[i]
        != ".."@ by {
        if i < paths::path_view(directory).parts.len() {
            assert(member.parts[i] == paths::path_view(directory).parts[i]);
        }
    }
}

proof fn session_names_are_plain()
    ensures
        paths::is_plain_name("snapdog-os.img"@),
        paths::is_plain_name("worker-job.json"@),
        paths::is_plain_name("worker-progress.jsonl"@),
        paths::is_plain_name("cancel"@),
        paths::is_plain_name("skip-verification"@),
        paths::is_plain_name("authorized-target.sock"@),
{
    reveal_strlit(".");
    reveal_strlit("..");
    reveal_strlit("snapdog-os.img");
    reveal_strlit("worker-job.json");
    reveal_strlit("worker-progress.jsonl");
    reveal_strlit("cancel");
    reveal_strlit("skip-verification");
    reveal_strlit("authorized-target.sock");
    assert("snapdog-os.img"@.len() == 14);
    assert("worker-job.json"@.len() == 15);
    assert("worker-progress.jsonl"@.len() == 21);
    assert("cancel"@.len() == 6);
    assert("skip-verification"@.len() == 17);
    assert("authorized-target.sock"@.len() == 22);
}

proof fn files_refuse_nothing(
    directory: Seq<char>,
    parent: Seq<char>,
    path: Seq<char>,
    name: Seq<char>,
    size: Option<u64>,
    empty: bool,
)
    requires
        session::is_session_member(directory, path, name),
    ensures
        session::refuses_nothing(session::file_checks(directory, parent, path, name, size, empty)),
{
}

/// A job that the pipeline writes into a directory of its own is refused by no check that the
/// worker makes on what the job says: the files it names are the members of its session, its
/// drive, digest and size are acceptable. What is left to check is what the files turn out to be.
pub proof fn written_job_is_refused_for_nothing_it_says(
    platform: Platform,
    directory: Seq<char>,
    job: WorkerJob,
    request: PipelineRequest,
    prepared: PreparedImageView,
)
    requires
        platform != Platform::Windows,
        paths::path_view(directory).is_clean_absolute(),
        paths::path_view(directory).parts.len() > 0,
        pipeline::is_worker_job(
            job,
            request,
            prepared,
            pipeline::session_files(platform, directory),
        ),
        worker::drive_identity_is_valid(platform, request.drive@),
        digest::is_sha256_text(prepared.raw_sha256),
        0 < prepared.bytes <= request.drive.capacity,
    ensures
        worker::text_fault(platform, job) is None,
        session::refuses_nothing(
            session::session_plan(
                platform,
                job,
                pipeline::session_files(platform, directory).job,
            ),
        ),
{
    let files = pipeline::session_files(platform, directory);
    session_names_are_plain();
    let view = paths::path_view(directory);
    paths::member_lies_in_its_directory(directory, "snapdog-os.img"@);
    let raw = paths::path_view(job.raw_path@);
    assert(raw.parent() == Some(view)) by {
        assert(raw.parts.drop_last() =~= view.parts);
    }
    let session = paths::path_text(view);
    paths::clean_path_reads_back(directory);
    assert(paths::path_view(session) == view);
    let parent = paths::path_text(view.parent()->0);
    member_is_in_its_session(directory, session, "snapdog-os.img"@);
    member_is_in_its_session(directory, session, "worker-job.json"@);
    member_is_in_its_session(directory, session, "worker-progress.jsonl"@);
    member_is_in_its_session(directory, session, "cancel"@);
    member_is_in_its_session(directory, session, "skip-verification"@);
    member_is_in_its_session(directory, session, "authorized-target.sock"@);
    assert(worker::text_fault(platform, job) is None);
    let progress = files.progress;
    let inputs = session::input_plan(job, files.job, session, parent);
    let channels = session::channel_plan(platform, job, progress, session, parent);
    let own = session::job_plan(platform, job);
    let opening = session::progress_checks(session, parent, progress);
    assert(session::refuses_nothing(inputs)) by {
        files_refuse_nothing(session, parent, files.job, "worker-job.json"@, None, false);
        files_refuse_nothing(
            session,
            parent,
            job.raw_path@,
            "snapdog-os.img"@,
            Some(job.raw_size),
            false,
        );
    }
    assert(session::refuses_nothing(channels)) by {
        files_refuse_nothing(
            session,
            parent,
            progress,
            "worker-progress.jsonl"@,
            Some(0),
            true,
        );
    }
    assert(session::refuses_nothing(opening)) by {
        files_refuse_nothing(
            session,
            parent,
            progress,
            "worker-progress.jsonl"@,
            Some(0),
            true,
        );
    }
    assert(session::refuses_nothing(own));
    nothing_refused_together(channels, own);
    nothing_refused_together(channels + own, opening);
    nothing_refused_together(inputs, channels + own + opening);
    let members = session::member_plan(platform, job, files.job, session, parent);
    assert(members == inputs + (channels + own + opening));
    let directories = seq![SessionCheckView::Directory(session), SessionCheckView::Parent(parent)];
    nothing_refused_together(directories, members);
}

// ---------------------------------------------------------------------------------------------
// Windows
// ---------------------------------------------------------------------------------------------

proof fn nothing_refused_together_on_windows(
    first: Seq<WindowsCheckView>,
    second: Seq<WindowsCheckView>,
)
    requires
        windows_session::refuses_nothing(first),
        windows_session::refuses_nothing(second),
    ensures
        windows_session::refuses_nothing(first + second),
{
}

proof fn session_names_are_plain_on_windows(verbatim: bool)
    ensures
        windows_paths::is_plain_name("snapdog-os.img"@, verbatim),
        windows_paths::is_plain_name("worker-job.json"@, verbatim),
        windows_paths::is_plain_name("worker-progress.jsonl"@, verbatim),
        windows_paths::is_plain_name("cancel"@, verbatim),
        windows_paths::is_plain_name("skip-verification"@, verbatim),
{
    reveal_strlit(".");
    reveal_strlit("..");
    reveal_strlit("snapdog-os.img");
    reveal_strlit("worker-job.json");
    reveal_strlit("worker-progress.jsonl");
    reveal_strlit("cancel");
    reveal_strlit("skip-verification");
    assert("snapdog-os.img"@.len() == 14);
    assert("worker-job.json"@.len() == 15);
    assert("worker-progress.jsonl"@.len() == 21);
    assert("cancel"@.len() == 6);
    assert("skip-verification"@.len() == 17);
}

proof fn member_is_in_its_windows_session(directory: Seq<char>, session: Seq<char>, name: Seq<char>)
    requires
        windows_paths::local_path(directory) matches Some(parent) && windows_paths::is_plain_name(
            name,
            parent.verbatim,
        ),
        windows_paths::local_path(session) == windows_paths::local_path(directory),
    ensures
        windows_paths::is_local_member(
            windows_paths::member_text(directory, name),
            session,
            name,
        ),
        windows_paths::is_absolute_text(windows_paths::member_text(directory, name)),
{
    windows_paths::member_lies_in_its_directory(directory, name);
}

proof fn windows_files_refuse_nothing(
    directory: Seq<char>,
    path: Seq<char>,
    name: Seq<char>,
    size: Option<u64>,
    empty: bool,
)
    requires
        windows_paths::is_local_member(path, directory, name),
    ensures
        windows_session::refuses_nothing(
            windows_session::file_checks(directory, path, name, size, empty),
        ),
{
}

/// A job that the pipeline writes into a directory of its own on a local drive is refused by no
/// check that the elevated worker makes on what the job says.
pub proof fn written_windows_job_is_refused_for_nothing_it_says(
    directory: Seq<char>,
    job: WorkerJob,
    request: PipelineRequest,
    prepared: PreparedImageView,
)
    requires
        windows_paths::local_path(directory) is Some,
        pipeline::is_worker_job(
            job,
            request,
            prepared,
            pipeline::session_files(Platform::Windows, directory),
        ),
        worker::drive_identity_is_valid(Platform::Windows, request.drive@),
        digest::is_sha256_text(prepared.raw_sha256),
        0 < prepared.bytes <= request.drive.capacity,
    ensures
        worker::text_fault(Platform::Windows, job) is None,
        windows_session::refuses_nothing(
            windows_session::session_plan(
                job,
                pipeline::session_files(Platform::Windows, directory).job,
            ),
        ),
{
    let files = pipeline::session_files(Platform::Windows, directory);
    let parent = windows_paths::local_path(directory)->0;
    session_names_are_plain_on_windows(parent.verbatim);
    windows_paths::clean_path_reads_back(directory);
    let session = windows_paths::local_text(parent);
    member_is_in_its_windows_session(directory, session, "snapdog-os.img"@);
    member_is_in_its_windows_session(directory, session, "worker-job.json"@);
    member_is_in_its_windows_session(directory, session, "worker-progress.jsonl"@);
    member_is_in_its_windows_session(directory, session, "cancel"@);
    member_is_in_its_windows_session(directory, session, "skip-verification"@);
    let raw = windows_paths::drive_path(job.raw_path@)->0;
    assert(raw.parts.drop_last() =~= parent.parts);
    assert(worker::text_fault(Platform::Windows, job) is None);
    let progress = files.progress;
    let inputs = windows_session::input_plan(job, files.job, session);
    let channels = windows_session::channel_plan(job, progress, session);
    let own = windows_session::job_plan(job);
    let opening = windows_session::progress_checks(session, progress);
    assert(windows_session::refuses_nothing(inputs)) by {
        windows_files_refuse_nothing(session, files.job, "worker-job.json"@, None, false);
        windows_files_refuse_nothing(
            session,
            job.raw_path@,
            "snapdog-os.img"@,
            Some(job.raw_size),
            false,
        );
    }
    assert(windows_session::refuses_nothing(channels)) by {
        windows_files_refuse_nothing(session, progress, "worker-progress.jsonl"@, Some(0), true);
    }
    assert(windows_session::refuses_nothing(opening)) by {
        windows_files_refuse_nothing(session, progress, "worker-progress.jsonl"@, Some(0), true);
    }
    assert(windows_session::refuses_nothing(own));
    nothing_refused_together_on_windows(channels, own);
    nothing_refused_together_on_windows(channels + own, opening);
    nothing_refused_together_on_windows(inputs, channels + own + opening);
    let members = windows_session::member_plan(job, files.job, session);
    assert(members == inputs + (channels + own + opening));
    let directories = seq![
        WindowsCheckView::FixedDisk(session),
        WindowsCheckView::Directory(session),
    ];
    nothing_refused_together_on_windows(directories, members);
}

} // verus!
