use vstd::prelude::*;

use vstd::string::StringExecFns;

verus! {

/// A request to the audio player.
pub enum AudioEvent {
    /// Background music: file name, and whether it loops.
    PlayBGM(String, bool),
    /// A sound effect: file name.
    PlaySFX(String),
    StopBGM,
}

/// An audio request with the file name as a sequence of characters.
pub enum AudioEventView {
    PlayBGM(Seq<char>, bool),
    PlaySFX(Seq<char>),
    StopBGM,
}

impl View for AudioEvent {
    type V = AudioEventView;

    open spec fn view(&self) -> AudioEventView {
        match self {
            AudioEvent::PlayBGM(file, looped) => AudioEventView::PlayBGM(file@, *looped),
            AudioEvent::PlaySFX(file) => AudioEventView::PlaySFX(file@),
            AudioEvent::StopBGM => AudioEventView::StopBGM,
        }
    }
}

/// What the game loop is asked to do: send a request to the audio player,
/// or pause for a number of microseconds.
pub enum Command {
    Send(AudioEvent),
    Sleep(u64),
}

pub enum CommandView {
    Send(AudioEventView),
    Sleep(u64),
}

impl View for Command {
    type V = CommandView;

    open spec fn view(&self) -> CommandView {
        match self {
            Command::Send(e) => CommandView::Send(e@),
            Command::Sleep(us) => CommandView::Sleep(*us),
        }
    }
}

/// The commands of a queue, as views.
pub open spec fn events_view(commands: Seq<Command>) -> Seq<CommandView> {
    commands.map_values(|c: Command| c@)
}

/// Playing the sound effect `file`.
pub open spec fn sfx(file: Seq<char>) -> CommandView {
    CommandView::Send(AudioEventView::PlaySFX(file))
}

/// Playing the background music `file`.
pub open spec fn bgm(file: Seq<char>, looped: bool) -> CommandView {
    CommandView::Send(AudioEventView::PlayBGM(file, looped))
}

/// Stopping the background music.
pub open spec fn stop_bgm() -> CommandView {
    CommandView::Send(AudioEventView::StopBGM)
}

/// Appends a request to play the sound effect `file`.
pub fn push_sfx(outbox: &mut Vec<Command>, file: &str)
    ensures
        events_view(final(outbox)@) == events_view(old(outbox)@).push(sfx(file@)),
{
    outbox.push(Command::Send(AudioEvent::PlaySFX(String::from_str(file))));
    assert(events_view(outbox@) =~= events_view(old(outbox)@).push(sfx(file@)));
}

/// Appends a request to play the background music `file`.
pub fn push_bgm(outbox: &mut Vec<Command>, file: &str, looped: bool)
    ensures
        events_view(final(outbox)@) == events_view(old(outbox)@).push(bgm(file@, looped)),
{
    outbox.push(Command::Send(AudioEvent::PlayBGM(String::from_str(file), looped)));
    assert(events_view(outbox@) =~= events_view(old(outbox)@).push(bgm(file@, looped)));
}

/// Appends a request to stop the background music.
pub fn push_stop_bgm(outbox: &mut Vec<Command>)
    ensures
        events_view(final(outbox)@) == events_view(old(outbox)@).push(stop_bgm()),
{
    outbox.push(Command::Send(AudioEvent::StopBGM));
    assert(events_view(outbox@) =~= events_view(old(outbox)@).push(stop_bgm()));
}

/// Appends a pause of `micros` microseconds.
pub fn push_sleep(outbox: &mut Vec<Command>, micros: u64)
    ensures
        events_view(final(outbox)@) == events_view(old(outbox)@).push(CommandView::Sleep(micros)),
{
    outbox.push(Command::Sleep(micros));
    assert(events_view(outbox@) =~= events_view(old(outbox)@).push(CommandView::Sleep(micros)));
}

/// What the audio player does with a request.
pub enum AudioAction {
    /// Stop the background music, then play the file, looping or not.
    PlayBgm(String, bool),
    /// Play the sound effect once, beside the music.
    PlaySfx(String),
    /// Stop the background music.
    StopBgm,
    /// Report that the file was never loaded.
    Missing(String),
}

pub enum AudioActionView {
    PlayBgm(Seq<char>, bool),
    PlaySfx(Seq<char>),
    StopBgm,
    Missing(Seq<char>),
}

impl View for AudioAction {
    type V = AudioActionView;

    open spec fn view(&self) -> AudioActionView {
        match self {
            AudioAction::PlayBgm(file, looped) => AudioActionView::PlayBgm(file@, *looped),
            AudioAction::PlaySfx(file) => AudioActionView::PlaySfx(file@),
            AudioAction::StopBgm => AudioActionView::StopBgm,
            AudioAction::Missing(file) => AudioActionView::Missing(file@),
        }
    }
}

/// The audio player's answer to a request, `loaded` telling whether the
/// file it names was loaded: music and effects play when loaded and are
/// reported missing otherwise; a stop always stops the music.
pub open spec fn audio_answer(event: AudioEventView, loaded: bool) -> AudioActionView {
    match event {
        AudioEventView::PlayBGM(file, looped) => if loaded {
            AudioActionView::PlayBgm(file, looped)
        } else {
            AudioActionView::Missing(file)
        },
        AudioEventView::PlaySFX(file) => if loaded {
            AudioActionView::PlaySfx(file)
        } else {
            AudioActionView::Missing(file)
        },
        AudioEventView::StopBGM => AudioActionView::StopBgm,
    }
}

/// One request to the audio player (see `audio_answer`).
pub fn audio_step(event: AudioEvent, loaded: bool) -> (action: AudioAction)
    ensures
        action@ == audio_answer(event@, loaded),
{
    match event {
        AudioEvent::PlayBGM(file, looped) => {
            if loaded {
                AudioAction::PlayBgm(file, looped)
            } else {
                AudioAction::Missing(file)
            }
        },
        AudioEvent::PlaySFX(file) => {
            if loaded {
                AudioAction::PlaySfx(file)
            } else {
                AudioAction::Missing(file)
            }
        },
        AudioEvent::StopBGM => AudioAction::StopBgm,
    }
}

/// The audio player plays exactly the file it is asked for, music looped
/// as asked, when that file was loaded; a file that was not loaded is
/// reported missing by name instead of played; a request to stop the
/// music is always obeyed, loaded files or not.
pub proof fn lemma_player_obeys(file: Seq<char>, looped: bool, loaded: bool)
    ensures
        audio_answer(AudioEventView::PlayBGM(file, looped), loaded) == if loaded {
            AudioActionView::PlayBgm(file, looped)
        } else {
            AudioActionView::Missing(file)
        },
        audio_answer(AudioEventView::PlaySFX(file), loaded) == if loaded {
            AudioActionView::PlaySfx(file)
        } else {
            AudioActionView::Missing(file)
        },
        audio_answer(AudioEventView::StopBGM, loaded) == AudioActionView::StopBgm,
{
}

} // verus!
