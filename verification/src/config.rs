//! Where the application keeps its files, and the changes it makes to what
//! it keeps.

use crate::calendar::{LocalMoment, Moment};
use crate::history::{
    appended, law_newest_first_orders, newest_first, of_profile, recent, recent_operations,
    record_operation, HISTORY_LIMIT,
};
use crate::models::{records, AppConfig, BackupOperation, OperationRecord, Profile};
use crate::reconcile::{
    is_reconciliation, law_recorded_runs_belong_to_the_profile, law_second_pass_adds_nothing,
    reconcile, replay, same_log, EventModel, Outcome, Reconciliation,
};
use crate::schedule::{
    compute_next_run, error_text, is_next_run, moment_of, noted, Schedule, ScheduleError,
};
use crate::system::{read_clock, user_config_dir};
use crate::text::to_chars;
use vstd::prelude::*;
use vstd::seq_lib::to_multiset_contains;

verus! {

/// The path of `child` inside the directory `base`: the two joined by a
/// stroke, unless `base` is empty or ends with one.
pub open spec fn joined(base: Seq<char>, child: Seq<char>) -> Seq<char> {
    if base.len() == 0 {
        child
    } else if base.last() == '/' {
        base + child
    } else {
        base + seq!['/'] + child
    }
}

/// The name of the application's directory among the user's configuration.
pub open spec fn app_dir_name() -> Seq<char> {
    "cloud-backup-app"@
}

/// The name of the file that holds the application's state.
pub open spec fn config_file_name() -> Seq<char> {
    "config.json"@
}

/// What is said when the operating system names no configuration
/// directory.
pub open spec fn no_config_dir() -> Seq<char> {
    "Could not determine config directory"@
}

/// The application's directory, given the user's configuration directory.
pub open spec fn config_dir_in(base: Option<Seq<char>>) -> Result<Seq<char>, Seq<char>> {
    match base {
        Some(dir) => Ok(joined(dir, app_dir_name())),
        None => Err(no_config_dir()),
    }
}

/// The application's state file, given the user's configuration directory.
pub open spec fn config_file_in(base: Option<Seq<char>>) -> Result<Seq<char>, Seq<char>> {
    match config_dir_in(base) {
        Ok(dir) => Ok(joined(dir, config_file_name())),
        Err(message) => Err(message),
    }
}

/// The characters of a path or of a message.
pub open spec fn path_model(path: Result<String, String>) -> Result<Seq<char>, Seq<char>> {
    match path {
        Ok(p) => Ok(p@),
        Err(message) => Err(message@),
    }
}

/// The path of `child` inside the directory `base`.
pub fn join_path(base: &str, child: &str) -> (path: String)
    ensures
        path@ == joined(base@, child@),
{
    let chars = to_chars(base);
    let mut path = String::from_str(base);
    if chars.len() == 0 {
        assert(path@ + child@ =~= child@);
    } else if chars[chars.len() - 1] != '/' {
        proof {
            reveal_strlit("/");
            assert("/"@ =~= seq!['/']);
        }
        path.append("/");
    }
    path.append(child);
    path
}

/// The application's directory inside the configuration directory `base`.
pub fn config_dir_under(base: Option<String>) -> (dir: Result<String, String>)
    ensures
        path_model(dir) == config_dir_in(crate::models::text_model(base)),
{
    match base {
        Some(dir) => Ok(join_path(dir.as_str(), "cloud-backup-app")),
        None => Err(String::from_str("Could not determine config directory")),
    }
}

/// The directory in which the application keeps its files.
///
/// The operating system decides where the user's configuration lies, and
/// whether it lies anywhere.
pub fn get_config_dir() -> (dir: Result<String, String>)
    ensures
        exists|base: Option<Seq<char>>| path_model(dir) == #[trigger] config_dir_in(base),
{
    let dir = config_dir_under(user_config_dir());
    dir
}

/// The file in which the application keeps its state.
///
/// The operating system decides where the user's configuration lies, and
/// whether it lies anywhere.
pub fn get_config_file() -> (file: Result<String, String>)
    ensures
        exists|base: Option<Seq<char>>| path_model(file) == #[trigger] config_file_in(base),
{
    let base = user_config_dir();
    let file = match config_dir_under(base) {
        Ok(dir) => Ok(join_path(dir.as_str(), "config.json")),
        Err(message) => Err(message),
    };
    assert(path_model(file) == config_file_in(crate::models::text_model(base)));
    file
}

/// What is said when no profile has the identifier asked for.
pub const PROFILE_NOT_FOUND: &'static str = "Profile not found";

/// The identifiers of a list of profiles, in order.
pub open spec fn profile_ids(profiles: Seq<Profile>) -> Seq<Seq<char>> {
    profiles.map_values(|profile: Profile| profile.id@)
}

/// The position of the first of `ids` that is `id`.
pub open spec fn first_with(ids: Seq<Seq<char>>, id: Seq<char>) -> Option<int>
    decreases ids.len(),
{
    if ids.len() == 0 {
        None
    } else {
        match first_with(ids.drop_last(), id) {
            Some(at) => Some(at),
            None => if ids.last() == id {
                Some(ids.len() - 1)
            } else {
                None
            },
        }
    }
}

/// What [`first_with`] finds is the first position that holds the
/// identifier, and where it finds nothing no position holds it.
pub proof fn lemma_first_with(ids: Seq<Seq<char>>, id: Seq<char>)
    ensures
        match first_with(ids, id) {
            Some(at) => 0 <= at < ids.len() && ids[at] == id && forall|i: int|
                0 <= i < at ==> ids[i] != id,
            None => forall|i: int| 0 <= i < ids.len() ==> ids[i] != id,
        },
    decreases ids.len(),
{
    if ids.len() > 0 {
        lemma_first_with(ids.drop_last(), id);
        assert(forall|i: int| 0 <= i < ids.len() - 1 ==> ids.drop_last()[i] == ids[i]);
    }
}

/// The position of the first of `profiles` whose identifier is `id`.
pub fn find_profile(profiles: &[Profile], id: &str) -> (found: Option<usize>)
    ensures
        match found {
            Some(at) => first_with(profile_ids(profiles@), id@) == Some(at as int) && at
                < profiles@.len(),
            None => first_with(profile_ids(profiles@), id@) is None,
        },
{
    let wanted = String::from_str(id);
    let mut i: usize = 0;
    assert(profile_ids(profiles@).take(0) =~= Seq::<Seq<char>>::empty());
    while i < profiles.len()
        invariant
            i <= profiles.len(),
            wanted@ == id@,
            first_with(profile_ids(profiles@).take(i as int), id@) is None,
        decreases profiles.len() - i,
    {
        proof {
            let seen = profile_ids(profiles@).take(i + 1);
            assert(seen.drop_last() =~= profile_ids(profiles@).take(i as int));
            assert(seen.last() == profiles@[i as int].id@);
        }
        if profiles[i].id == wanted {
            proof {
                lemma_found_stays(profile_ids(profiles@), id@, i + 1);
            }
            return Some(i);
        }
        i = i + 1;
    }
    assert(profile_ids(profiles@).take(profiles.len() as int) =~= profile_ids(profiles@));
    None
}

/// What is found among the first `n` identifiers is found among all.
pub proof fn lemma_found_stays(ids: Seq<Seq<char>>, id: Seq<char>, n: int)
    requires
        0 <= n <= ids.len(),
        first_with(ids.take(n), id) is Some,
    ensures
        first_with(ids, id) == first_with(ids.take(n), id),
    decreases ids.len() - n,
{
    if n == ids.len() {
        assert(ids.take(n) =~= ids);
    } else {
        assert(ids.take(n + 1).drop_last() =~= ids.take(n));
        lemma_found_stays(ids, id, n + 1);
    }
}

/// Adds `profile` to what the application keeps, at the instant `now`.
pub fn add_profile(config: &mut AppConfig, profile: Profile, now: i64)
    ensures
        final(config).profiles@ == old(config).profiles@.push(profile),
        final(config).updated_at == now,
        final(config).active_profile_id == old(config).active_profile_id,
        final(config).app_version == old(config).app_version,
        final(config).backup_operations == old(config).backup_operations,
        final(config).created_at == old(config).created_at,
{
    config.profiles.push(profile);
    config.updated_at = now;
}

/// Puts `profile` in the place of the first profile that has its
/// identifier, at the instant `now`, which becomes the time of its last
/// change. Fails if there is no such profile.
pub fn replace_profile(config: &mut AppConfig, profile: Profile, now: i64) -> (done: Result<
    usize,
    String,
>)
    ensures
        final(config).active_profile_id == old(config).active_profile_id,
        final(config).app_version == old(config).app_version,
        final(config).backup_operations == old(config).backup_operations,
        final(config).created_at == old(config).created_at,
        match first_with(profile_ids(old(config).profiles@), profile.id@) {
            Some(at) => done == Ok::<usize, String>(at as usize) && final(config).updated_at
                == now && final(config).profiles@ == old(config).profiles@.update(
                at,
                (Profile { updated_at: now, ..profile }),
            ),
            None => done matches Err(message) && message@ == PROFILE_NOT_FOUND@ && *final(config)
                == *old(config),
        },
{
    match find_profile(config.profiles.as_slice(), profile.id.as_str()) {
        Some(at) => {
            let mut updated = profile;
            updated.updated_at = now;
            config.profiles.remove(at);
            config.profiles.insert(at, updated);
            config.updated_at = now;
            assert(config.profiles@ =~= old(config).profiles@.update(at as int, updated));
            Ok(at)
        },
        None => Err(String::from_str(PROFILE_NOT_FOUND)),
    }
}

/// `profiles` without those whose identifier is `id`.
pub open spec fn without_profile(profiles: Seq<Profile>, id: Seq<char>) -> Seq<Profile> {
    profiles.filter(|profile: Profile| profile.id@ != id)
}

/// The active profile after the profiles with the identifier `id` have
/// gone: none if it was one of them.
pub open spec fn active_without(active: Option<String>, id: Seq<char>) -> Option<String> {
    match active {
        Some(a) => if a@ == id {
            None
        } else {
            active
        },
        None => None,
    }
}

/// Removes every profile whose identifier is `profile_id`, at the instant
/// `now`. If the active profile is among them, none is active after.
/// Fails, and changes nothing, if there is no such profile.
pub fn remove_profile(config: &mut AppConfig, profile_id: &str, now: i64) -> (done: Result<
    (),
    String,
>)
    ensures
        final(config).app_version == old(config).app_version,
        final(config).backup_operations == old(config).backup_operations,
        final(config).created_at == old(config).created_at,
        final(config).profiles@ == without_profile(old(config).profiles@, profile_id@),
        match first_with(profile_ids(old(config).profiles@), profile_id@) {
            Some(_) => done is Ok && final(config).updated_at == now && final(
                config
            ).active_profile_id == active_without(old(config).active_profile_id, profile_id@),
            None => done matches Err(message) && message@ == PROFILE_NOT_FOUND@ && final(
                config
            ).updated_at == old(config).updated_at && final(config).active_profile_id == old(
                config
            ).active_profile_id,
        },
{
    let wanted = String::from_str(profile_id);
    let found = find_profile(config.profiles.as_slice(), profile_id);
    let ghost all = config.profiles@;
    let ghost stays = |profile: Profile| profile.id@ != profile_id@;
    let mut at: usize = 0;
    let ghost mut seen: int = 0;
    proof {
        reveal(Seq::filter);
        lemma_first_with(profile_ids(all), profile_id@);
        assert(all.take(0) =~= Seq::<Profile>::empty());
        assert(all.skip(0) =~= all);
    }
    while at < config.profiles.len()
        invariant
            wanted@ == profile_id@,
            stays == (|profile: Profile| profile.id@ != profile_id@),
            0 <= seen <= all.len(),
            at <= config.profiles@.len(),
            config.profiles@ == all.take(seen).filter(stays) + all.skip(seen),
            at == all.take(seen).filter(stays).len(),
            config.app_version == old(config).app_version,
            config.backup_operations == old(config).backup_operations,
            config.created_at == old(config).created_at,
            config.updated_at == old(config).updated_at,
            config.active_profile_id == old(config).active_profile_id,
        decreases all.len() - seen,
    {
        proof {
            assert(config.profiles@[at as int] == all.skip(seen)[0]);
            assert(all.take(seen + 1) =~= all.take(seen).push(all[seen]));
            all.take(seen).lemma_filter_push(all[seen], stays);
            assert(all.skip(seen).skip(1) =~= all.skip(seen + 1));
        }
        if config.profiles[at].id == wanted {
            config.profiles.remove(at);
            proof {
                assert(config.profiles@ =~= all.take(seen + 1).filter(stays) + all.skip(seen + 1));
                seen = seen + 1;
            }
        } else {
            proof {
                assert(config.profiles@ =~= all.take(seen + 1).filter(stays) + all.skip(seen + 1));
                seen = seen + 1;
            }
            at = at + 1;
        }
    }
    proof {
        assert(all.skip(seen).len() == 0);
        assert(seen == all.len());
        assert(all.take(seen) =~= all);
        assert(config.profiles@ =~= all.filter(stays));
    }
    match found {
        None => Err(String::from_str(PROFILE_NOT_FOUND)),
        Some(_) => {
            let same = match &config.active_profile_id {
                Some(active) => *active == wanted,
                None => false,
            };
            if same {
                config.active_profile_id = None;
            }
            config.updated_at = now;
            Ok(())
        },
    }
}

/// The profile that is active: the first whose identifier is the one that
/// the application keeps as active, if it keeps one and a profile has it.
pub fn active_profile(config: &AppConfig) -> (active: Option<&Profile>)
    ensures
        match config.active_profile_id {
            None => active is None,
            Some(id) => match first_with(profile_ids(config.profiles@), id@) {
                Some(at) => active == Some(&config.profiles@[at]),
                None => active is None,
            },
        },
{
    match &config.active_profile_id {
        None => None,
        Some(id) => match find_profile(config.profiles.as_slice(), id.as_str()) {
            Some(at) => Some(&config.profiles[at]),
            None => None,
        },
    }
}

/// Makes the profile with the identifier `profile_id` the active one, at
/// the instant `now`. Fails, and changes nothing, if there is no such
/// profile.
pub fn activate_profile(config: &mut AppConfig, profile_id: &str, now: i64) -> (done: Result<
    (),
    String,
>)
    ensures
        final(config).profiles == old(config).profiles,
        final(config).app_version == old(config).app_version,
        final(config).backup_operations == old(config).backup_operations,
        final(config).created_at == old(config).created_at,
        match first_with(profile_ids(old(config).profiles@), profile_id@) {
            Some(_) => done is Ok && final(config).updated_at == now
                && crate::models::text_model(final(config).active_profile_id) == Some(profile_id@),
            None => done matches Err(message) && message@ == PROFILE_NOT_FOUND@ && *final(config)
                == *old(config),
        },
{
    match find_profile(config.profiles.as_slice(), profile_id) {
        Some(_) => {
            config.active_profile_id = Some(String::from_str(profile_id));
            config.updated_at = now;
            Ok(())
        },
        None => Err(String::from_str(PROFILE_NOT_FOUND)),
    }
}

/// `history` after each of `operations` has been recorded, in order.
pub open spec fn appended_all(
    history: Seq<OperationRecord>,
    operations: Seq<OperationRecord>,
) -> Seq<OperationRecord>
    decreases operations.len(),
{
    if operations.len() == 0 {
        history
    } else {
        appended(appended_all(history, operations.drop_last()), operations.last())
    }
}

/// Records each of `operations` in `history`, in order.
pub fn record_operations(history: &mut Vec<BackupOperation>, operations: Vec<BackupOperation>)
    ensures
        records(final(history)@) == appended_all(records(old(history)@), records(operations@)),
{
    let mut rest = operations;
    let ghost all = records(operations@);
    let ghost mut done: int = 0;
    proof {
        assert(all.take(0) =~= Seq::<OperationRecord>::empty());
        assert(all.skip(0) =~= all);
    }
    while rest.len() > 0
        invariant
            0 <= done <= all.len(),
            records(rest@) == all.skip(done),
            records(history@) == appended_all(records(old(history)@), all.take(done)),
        decreases rest.len(),
    {
        let ghost before = records(rest@);
        let ghost first = rest@[0];
        assert(before.len() == rest@.len());
        assert(done < all.len());
        let operation = rest.remove(0);
        proof {
            assert(before[0] == first@);
            assert(all.skip(done)[0] == all[done]);
            assert(records(rest@) =~= before.remove(0));
            assert(before.remove(0) =~= all.skip(done + 1));
            assert(operation@ == all[done]);
            assert(all.take(done + 1).drop_last() =~= all.take(done));
            done = done + 1;
        }
        record_operation(history, operation);
    }
    proof {
        assert(all.take(done) =~= all);
    }
}

/// `profile` with `schedule` as its schedule, changed at `now`.
pub open spec fn with_schedule(profile: Profile, schedule: Option<Schedule>, now: i64) -> Profile {
    Profile { schedule, updated_at: now, ..profile }
}

/// `after` and `done` are what giving the profile `profile_id` of `before`
/// the schedule `schedule` comes to, at the local moment `now`, which is
/// the instant `now_utc`. Without such a profile, and with a schedule that
/// cannot be used, nothing changes and the reason is told. Else the first
/// such profile has the schedule, with the next run that the calculator
/// gives it, and `done` is its position.
pub open spec fn is_scheduled(
    before: AppConfig,
    after: AppConfig,
    profile_id: Seq<char>,
    schedule: Schedule,
    now: Moment,
    now_utc: i64,
    done: Result<usize, String>,
) -> bool {
    match first_with(profile_ids(before.profiles@), profile_id) {
        None => done matches Err(message) && message@ == PROFILE_NOT_FOUND@ && after == before,
        Some(at) => exists|next: Result<Option<i64>, ScheduleError>| #[trigger]
            is_next_run(schedule, now, now_utc, next) && match next {
                Err(error) => done matches Err(message) && message@ == error_text(error) && after
                    == before,
                Ok(due) => done == Ok::<usize, String>(at as usize) && after == (AppConfig {
                    profiles: after.profiles,
                    updated_at: now_utc,
                    ..before
                }) && after.profiles@ == before.profiles@.update(
                    at,
                    with_schedule(
                        before.profiles@[at],
                        Some(Schedule { next_run: due, ..schedule }),
                        now_utc,
                    ),
                ),
            },
    }
}

/// Gives the profile `profile_id` the schedule `schedule`, with its next
/// run worked out from the local moment `now_local`, which is the instant
/// `now_utc`. Fails, and changes nothing, if there is no such profile or
/// if the schedule cannot be used.
pub fn schedule_profile(
    config: &mut AppConfig,
    profile_id: &str,
    schedule: Schedule,
    now_local: &LocalMoment,
    now_utc: i64,
) -> (done: Result<usize, String>)
    ensures
        is_scheduled(
            *old(config),
            *final(config),
            profile_id@,
            schedule,
            now_local@,
            now_utc,
            done,
        ),
{
    let at = match find_profile(config.profiles.as_slice(), profile_id) {
        Some(at) => at,
        None => {
            return Err(String::from_str(PROFILE_NOT_FOUND));
        },
    };
    let next = compute_next_run(&schedule, now_local, now_utc);
    match next {
        Err(error) => Err(error.message()),
        Ok(due) => {
            let mut planned = schedule;
            planned.next_run = due;
            let mut profile = config.profiles.remove(at);
            let ghost before = profile;
            profile.schedule = Some(planned);
            profile.updated_at = now_utc;
            config.profiles.insert(at, profile);
            config.updated_at = now_utc;
            assert(config.profiles@ =~= old(config).profiles@.update(at as int, profile));
            Ok(at)
        },
    }
}

/// What is said when the clock shows no moment of the calendar.
pub const NO_LOCAL_TIME: &'static str = "Invalid local time";

/// Gives the profile `profile_id` the schedule `schedule`, with its next
/// run worked out from now. Fails, and changes nothing, if there is no
/// such profile or if the schedule cannot be used.
///
/// Reads the system clock and calls [`schedule_profile`]. The clock and
/// the time zone decide the next run: the contract says what holds of
/// every reading.
pub fn schedule_backup(config: &mut AppConfig, profile_id: &str, schedule: Schedule) -> (done:
    Result<usize, String>)
    ensures
        exists|now: Moment, now_utc: i64|
            now.is_valid() && #[trigger] is_scheduled(
                *old(config),
                *final(config),
                profile_id@,
                schedule,
                now,
                now_utc,
                done,
            ),
{
    let reading = read_clock();
    match moment_of(&reading) {
        Some(now) => {
            let done = schedule_profile(config, profile_id, schedule, &now, reading.utc_millis);
            assert(now@.is_valid() && is_scheduled(
                *old(config),
                *config,
                profile_id@,
                schedule,
                now@,
                reading.utc_millis,
                done,
            ));
            done
        },
        None => Err(String::from_str(NO_LOCAL_TIME)),
    }
}

/// Takes the schedule from the profile `profile_id`, at the instant `now`.
/// Fails, and changes nothing, if there is no such profile.
pub fn unschedule_profile(config: &mut AppConfig, profile_id: &str, now: i64) -> (done: Result<
    usize,
    String,
>)
    ensures
        match first_with(profile_ids(old(config).profiles@), profile_id@) {
            None => done matches Err(message) && message@ == PROFILE_NOT_FOUND@ && *final(config)
                == *old(config),
            Some(at) => done == Ok::<usize, String>(at as usize) && *final(config) == (AppConfig {
                profiles: final(config).profiles,
                updated_at: now,
                ..*old(config)
            }) && final(config).profiles@ == old(config).profiles@.update(
                at,
                with_schedule(old(config).profiles@[at], None, now),
            ),
        },
{
    let at = match find_profile(config.profiles.as_slice(), profile_id) {
        Some(at) => at,
        None => {
            return Err(String::from_str(PROFILE_NOT_FOUND));
        },
    };
    let mut profile = config.profiles.remove(at);
    profile.schedule = None;
    profile.updated_at = now;
    config.profiles.insert(at, profile);
    config.updated_at = now;
    assert(config.profiles@ =~= old(config).profiles@.update(at as int, profile));
    Ok(at)
}

/// The schedule of the profile `profile_id`. Fails if there is no such
/// profile.
pub fn schedule_of<'a>(config: &'a AppConfig, profile_id: &str) -> (found: Result<
    &'a Option<Schedule>,
    String,
>)
    ensures
        match first_with(profile_ids(config.profiles@), profile_id@) {
            None => found matches Err(message) && message@ == PROFILE_NOT_FOUND@,
            Some(at) => found == Ok::<&Option<Schedule>, String>(&config.profiles@[at].schedule),
        },
{
    match find_profile(config.profiles.as_slice(), profile_id) {
        Some(at) => Ok(&config.profiles[at].schedule),
        None => Err(String::from_str(PROFILE_NOT_FOUND)),
    }
}

/// `after` is the schedule `before` once it has noted a run that started
/// at `started_at`: that is its last run, and its next run is what the
/// calculator gives at the local moment `now`, the instant `now_utc`.
pub open spec fn schedule_noted(
    before: Schedule,
    after: Schedule,
    started_at: i64,
    now: Moment,
    now_utc: i64,
) -> bool {
    &&& after.enabled == before.enabled
    &&& after.frequency == before.frequency
    &&& after.time == before.time
    &&& after.last_run == Some(started_at)
    &&& exists|next: Result<Option<i64>, ScheduleError>| #[trigger]
        is_next_run(before, now, now_utc, next) && after.next_run == noted(next)
}

/// `after` is the profile `before` once its schedule, if it has one, has
/// noted a run that started at `started_at`. Nothing else of it changes.
pub open spec fn run_noted(
    before: Profile,
    after: Profile,
    started_at: i64,
    now: Moment,
    now_utc: i64,
) -> bool {
    &&& after == (Profile { schedule: after.schedule, ..before })
    &&& match before.schedule {
        None => after.schedule is None,
        Some(schedule) => after.schedule matches Some(noted) && schedule_noted(
            schedule,
            noted,
            started_at,
            now,
            now_utc,
        ),
    }
}

/// Has the schedule of the profile `profile_id`, if there is such a profile
/// and it has a schedule, note a run that started at `started_at`.
pub fn note_last_run(
    config: &mut AppConfig,
    profile_id: &str,
    started_at: i64,
    now_local: &LocalMoment,
    now_utc: i64,
)
    ensures
        *final(config) == (AppConfig { profiles: final(config).profiles, ..*old(config) }),
        final(config).profiles@.len() == old(config).profiles@.len(),
        match first_with(profile_ids(old(config).profiles@), profile_id@) {
            None => final(config).profiles@ == old(config).profiles@,
            Some(at) => run_noted(
                old(config).profiles@[at],
                final(config).profiles@[at],
                started_at,
                now_local@,
                now_utc,
            ) && forall|i: int|
                0 <= i < old(config).profiles@.len() && i != at ==> final(config).profiles@[i]
                    == old(config).profiles@[i],
        },
{
    let at = match find_profile(config.profiles.as_slice(), profile_id) {
        Some(at) => at,
        None => {
            return ;
        },
    };
    let profile = config.profiles.remove(at);
    let noted = Profile {
        schedule: match profile.schedule {
            Some(schedule) => {
                let mut schedule = schedule;
                schedule.note_run(started_at, now_local, now_utc);
                Some(schedule)
            },
            None => None,
        },
        id: profile.id,
        name: profile.name,
        profile_type: profile.profile_type,
        rclone_bin: profile.rclone_bin,
        rclone_conf: profile.rclone_conf,
        remote: profile.remote,
        bucket: profile.bucket,
        prefix: profile.prefix,
        sources: profile.sources,
        mode: profile.mode,
        rclone_flags: profile.rclone_flags,
        aws_config: profile.aws_config,
        created_at: profile.created_at,
        updated_at: profile.updated_at,
    };
    config.profiles.insert(at, noted);
}

/// The last of `starts`, if there is one.
pub open spec fn latest(starts: Seq<int>) -> Option<int> {
    if starts.len() == 0 {
        None
    } else {
        Some(starts.last())
    }
}

/// `after` are the profiles `before` once the schedule of the profile
/// `profile_id` has noted the last of the runs that started at `last_runs`:
/// the first such profile has its schedule note that run, if it has a
/// schedule, and every other profile is as it was. Without a run, and
/// without such a profile, nothing changes.
pub open spec fn last_run_noted(
    before: Seq<Profile>,
    after: Seq<Profile>,
    profile_id: Seq<char>,
    last_runs: Seq<int>,
    now: Moment,
    now_utc: i64,
) -> bool {
    &&& after.len() == before.len()
    &&& match (latest(last_runs), first_with(profile_ids(before), profile_id)) {
        (Some(started_at), Some(at)) => run_noted(
            before[at],
            after[at],
            started_at as i64,
            now,
            now_utc,
        ) && forall|i: int| 0 <= i < before.len() && i != at ==> after[i] == before[i],
        _ => after == before,
    }
}

/// Takes what a pass over a profile's log yielded into what the
/// application keeps: the runs it found go to the history, and the
/// profile's schedule notes the last run that closed. Tells how many runs
/// were new.
pub fn apply_reconciliation(
    config: &mut AppConfig,
    profile_id: &str,
    outcome: Reconciliation,
    now_local: &LocalMoment,
    now_utc: i64,
) -> (new: usize)
    ensures
        new == outcome@.created.len(),
        records(final(config).backup_operations@) == appended_all(
            records(old(config).backup_operations@),
            outcome@.created,
        ),
        *final(config) == (AppConfig {
            profiles: final(config).profiles,
            backup_operations: final(config).backup_operations,
            ..*old(config)
        }),
        last_run_noted(
            old(config).profiles@,
            final(config).profiles@,
            profile_id@,
            outcome@.last_runs,
            now_local@,
            now_utc,
        ),
{
    let new = outcome.new_count();
    let last_runs = outcome.last_runs;
    record_operations(&mut config.backup_operations, outcome.new_operations);
    if last_runs.len() > 0 {
        let started_at = last_runs[last_runs.len() - 1];
        note_last_run(config, profile_id, started_at, now_local, now_utc);
    }
    new
}

/// Recording runs in a history that has room for them all writes them
/// behind it.
proof fn lemma_appended_with_room(history: Seq<OperationRecord>, operations: Seq<OperationRecord>)
    requires
        history.len() + operations.len() <= HISTORY_LIMIT,
    ensures
        appended_all(history, operations) == history + operations,
    decreases operations.len(),
{
    if operations.len() == 0 {
        assert(history + operations =~= history);
    } else {
        lemma_appended_with_room(history, operations.drop_last());
        assert((history + operations.drop_last()).push(operations.last()) =~= history
            + operations);
    }
}

/// The runs of a profile in two histories, one behind the other, are its
/// runs in the one and then its runs in the other. Runs that all belong to
/// the profile are all its runs.
proof fn lemma_of_profile_behind(
    history: Seq<OperationRecord>,
    more: Seq<OperationRecord>,
    profile_id: Seq<char>,
)
    ensures
        of_profile(history + more, profile_id) == of_profile(history, profile_id) + of_profile(
            more,
            profile_id,
        ),
        (forall|i: int| 0 <= i < more.len() ==> (#[trigger] more[i]).profile_id == profile_id)
            ==> of_profile(more, profile_id) == more,
    decreases more.len(),
{
    reveal(Seq::filter);
    if more.len() == 0 {
        assert(history + more =~= history);
        assert(of_profile(history, profile_id) + of_profile(more, profile_id) =~= of_profile(
            history,
            profile_id,
        ));
    } else {
        lemma_of_profile_behind(history, more.drop_last(), profile_id);
        assert((history + more).drop_last() =~= history + more.drop_last());
        assert((history + more).last() == more.last());
        if forall|i: int| 0 <= i < more.len() ==> (#[trigger] more[i]).profile_id == profile_id {
            assert(forall|i: int|
                0 <= i < more.drop_last().len() ==> (#[trigger] more.drop_last()[i]).profile_id
                    == profile_id) by {
                assert(forall|i: int|
                    0 <= i < more.drop_last().len() ==> more.drop_last()[i] == more[i]);
            }
            assert(more.last() == more[more.len() - 1]);
            assert(more.drop_last().push(more.last()) =~= more);
        }
        if more.last().profile_id == profile_id {
            assert(of_profile(history, profile_id) + of_profile(more.drop_last(), profile_id).push(
                more.last(),
            ) =~= (of_profile(history, profile_id) + of_profile(
                more.drop_last(),
                profile_id,
            )).push(more.last()));
        }
    }
}

/// What the history tells of a profile, without a limit, are the runs of
/// that profile that it holds.
proof fn lemma_recent_holds(history: Seq<OperationRecord>, profile_id: Seq<char>, run: OperationRecord)
    ensures
        recent(history, profile_id, None).contains(run) <==> of_profile(
            history,
            profile_id,
        ).contains(run),
{
    law_newest_first_orders(of_profile(history, profile_id));
    to_multiset_contains(newest_first(of_profile(history, profile_id)), run);
    to_multiset_contains(of_profile(history, profile_id), run);
}

/// Bringing the history up to date with a log twice adds nothing the
/// second time: once the runs that a first pass over a log found are
/// recorded, a second pass over the same log, seen against what the
/// history then tells of the profile, records no run. The history is taken
/// to have room for the runs of the first pass, so that none of them is
/// dropped, and the two passes to read the same starts.
pub proof fn law_second_sync_adds_nothing(
    history: Seq<OperationRecord>,
    profile_id: Seq<char>,
    first: Seq<EventModel>,
    second: Seq<EventModel>,
    now: int,
    later: int,
)
    requires
        same_log(first, second),
        history.len() + replay(
            first,
            profile_id,
            recent(history, profile_id, None),
            now,
        ).created.len() <= HISTORY_LIMIT,
    ensures
        replay(
            second,
            profile_id,
            recent(
                appended_all(
                    history,
                    replay(first, profile_id, recent(history, profile_id, None), now).created,
                ),
                profile_id,
                None,
            ),
            later,
        ).created.len() == 0,
{
    let existing = recent(history, profile_id, None);
    let created = replay(first, profile_id, existing, now).created;
    let grown = recent(appended_all(history, created), profile_id, None);
    let mine = of_profile(history, profile_id);
    lemma_appended_with_room(history, created);
    law_recorded_runs_belong_to_the_profile(first, profile_id, existing, now);
    lemma_of_profile_behind(history, created, profile_id);
    assert(of_profile(history + created, profile_id) == mine + created);
    assert forall|i: int| 0 <= i < (existing + created).len() implies grown.contains(
        #[trigger] (existing + created)[i],
    ) by {
        let run = (existing + created)[i];
        lemma_recent_holds(history + created, profile_id, run);
        if i < existing.len() {
            assert(existing[i] == run);
            assert(existing.contains(run));
            lemma_recent_holds(history, profile_id, run);
            let j = choose|j: int| 0 <= j < mine.len() && mine[j] == run;
            assert((mine + created)[j] == run);
        } else {
            assert((mine + created)[mine.len() + (i - existing.len())] == run);
        }
    }
    law_second_pass_adds_nothing(first, second, profile_id, existing, grown, now, later);
}

/// `after` and `new` are what bringing `before` up to date with the log
/// `log_text` of the profile `profile_id` can come to: for what some pass
/// over the log yields, seen against the runs that the history holds for
/// this profile, the runs it found are recorded, the profile's schedule
/// has noted the last run at some moment, `new` is the number of runs
/// found, and nothing else has changed.
pub open spec fn is_synced(
    before: AppConfig,
    after: AppConfig,
    profile_id: Seq<char>,
    log_text: Seq<char>,
    new: usize,
) -> bool {
    &&& after == (AppConfig {
        profiles: after.profiles,
        backup_operations: after.backup_operations,
        ..before
    })
    &&& exists|outcome: Outcome, now: Moment, now_utc: i64|
        is_reconciliation(
            profile_id,
            log_text,
            recent(records(before.backup_operations@), profile_id, None),
            outcome,
        ) && now.is_valid() && new == outcome.created.len() && records(after.backup_operations@)
            == appended_all(records(before.backup_operations@), outcome.created)
            && #[trigger] last_run_noted(
            before.profiles@,
            after.profiles@,
            profile_id,
            outcome.last_runs,
            now,
            now_utc,
        )
}

/// Brings what the application keeps up to date with the log `log_text` of
/// the profile `profile_id`: the runs that the log records and the history
/// does not hold for this profile go to the history, and the profile's
/// schedule notes the last run, whether that run was new or not. Tells how
/// many runs were new. An empty log changes nothing.
///
/// Reads the system clock for the moment at which the schedule notes the
/// run.
pub fn sync_scheduled_backup_logs(config: &mut AppConfig, profile_id: &str, log_text: &str) -> (new:
    usize)
    ensures
        is_synced(*old(config), *final(config), profile_id@, log_text@, new),
{
    let existing = recent_operations(config.backup_operations.as_slice(), profile_id, None);
    let outcome = reconcile(profile_id, log_text, existing.as_slice());
    let ghost found = outcome@;
    let reading = read_clock();
    match moment_of(&reading) {
        Some(now) => {
            let new = apply_reconciliation(config, profile_id, outcome, &now, reading.utc_millis);
            assert(last_run_noted(
                old(config).profiles@,
                config.profiles@,
                profile_id@,
                found.last_runs,
                now@,
                reading.utc_millis,
            ));
            new
        },
        None => {
            let new = outcome.new_count();
            record_operations(&mut config.backup_operations, outcome.new_operations);
            new
        },
    }
}

} // verus!
