//! Every user-facing reply the bot sends, each pinned to its exact text.

use vstd::prelude::*;
use vstd::string::StringExecFns;

use crate::numtext::dec_digits;
use crate::numtext::dec_signed;
use crate::numtext::u64_dec_string;
use crate::numtext::i64_dec_string;
use crate::text::copy_str;

verus! {

/// Reply when a guild-only command arrives outside a server.
pub fn server_only_message() -> (r: String)
    ensures
        r@ == "This command can only be used in a server."@,
{
    copy_str("This command can only be used in a server.")
}

/// Reply when the issuing member cannot be resolved.
pub fn member_missing_message() -> (r: String)
    ensures
        r@ == "Could not find member information."@,
{
    copy_str("Could not find member information.")
}

/// Reply to a play request with no query.
pub fn empty_query_message() -> (r: String)
    ensures
        r@ == "Please provide a search query or URL."@,
{
    copy_str("Please provide a search query or URL.")
}

/// Reply when the issuer is not in a voice channel.
pub fn not_in_voice_message() -> (r: String)
    ensures
        r@ == "You must be in a voice channel to use this command."@,
{
    copy_str("You must be in a voice channel to use this command.")
}

/// Reply when joining the voice channel failed, with the cause.
pub fn join_failed_message(detail: &str) -> (r: String)
    ensures
        r@ == "Failed to join voice channel: "@ + detail@,
{
    let mut r = copy_str("Failed to join voice channel: ");
    r.append(detail);
    r
}

/// Reply when the track search hit its timeout.
pub fn search_timeout_message() -> (r: String)
    ensures
        r@ == "Search timed out."@,
{
    copy_str("Search timed out.")
}

/// Reply when the track search failed, with the cause.
pub fn search_failed_message(detail: &str) -> (r: String)
    ensures
        r@ == "Search failed: "@ + detail@,
{
    let mut r = copy_str("Search failed: ");
    r.append(detail);
    r
}

/// Reply when the search matched nothing.
pub fn no_results_message() -> (r: String)
    ensures
        r@ == "No results found."@,
{
    copy_str("No results found.")
}

/// Reply when the search result held nothing playable.
pub fn no_playable_message() -> (r: String)
    ensures
        r@ == "No playable tracks found."@,
{
    copy_str("No playable tracks found.")
}

/// The text confirming a single queued track.
pub open spec fn queued_one_spec(query: Seq<char>) -> Seq<char> {
    "Queued: "@ + query
}

/// Confirms a single queued track, echoing the search text.
pub fn queued_one_message(query: &str) -> (r: String)
    ensures
        r@ == queued_one_spec(query@),
{
    let mut r = copy_str("Queued: ");
    r.append(query);
    r
}

/// The text confirming a bulk import of `n` tracks.
pub open spec fn queued_many_spec(n: int) -> Seq<char> {
    "Queued playlist with "@ + dec_digits(n) + " tracks"@
}

/// Confirms a bulk import of `n` tracks.
pub fn queued_many_message(n: u64) -> (r: String)
    ensures
        r@ == queued_many_spec(n as int),
{
    let mut r = copy_str("Queued playlist with ");
    r.append(u64_dec_string(n).as_str());
    r.append(" tracks");
    r
}

/// The text crediting whoever skipped the track.
pub open spec fn skipped_spec(user: Seq<char>) -> Seq<char> {
    user + " skipped"@
}

/// Credits whoever skipped the track.
pub fn skipped_message(user: &str) -> (r: String)
    ensures
        r@ == skipped_spec(user@),
{
    let mut r = copy_str(user);
    r.append(" skipped");
    r
}

/// Reply when a skip arrives with nothing playing.
pub fn nothing_to_skip_message() -> (r: String)
    ensures
        r@ == "Nothing to skip."@,
{
    copy_str("Nothing to skip.")
}

/// Reply when no voice connection exists for the guild.
pub fn not_connected_message() -> (r: String)
    ensures
        r@ == "Not connected to voice."@,
{
    copy_str("Not connected to voice.")
}

/// Reply after the pause command.
pub fn paused_message() -> (r: String)
    ensures
        r@ == "Paused playback."@,
{
    copy_str("Paused playback.")
}

/// Reply after the resume command.
pub fn resumed_message() -> (r: String)
    ensures
        r@ == "Resumed playback."@,
{
    copy_str("Resumed playback.")
}

/// Reply after stopping playback.
pub fn stopped_message() -> (r: String)
    ensures
        r@ == "Stopped playback and cleared queue."@,
{
    copy_str("Stopped playback and cleared queue.")
}

/// The text confirming the new volume.
pub open spec fn volume_set_spec(v: int) -> Seq<char> {
    "Volume set to "@ + dec_digits(v) + "%"@
}

/// Confirms the new volume percentage.
pub fn volume_set_message(v: u64) -> (r: String)
    ensures
        r@ == volume_set_spec(v as int),
{
    let mut r = copy_str("Volume set to ");
    r.append(u64_dec_string(v).as_str());
    r.append("%");
    r
}

/// Reply to an out-of-range or unreadable volume input.
pub fn volume_invalid_message() -> (r: String)
    ensures
        r@ == "Please provide a volume level between 0 and 100."@,
{
    copy_str("Please provide a volume level between 0 and 100.")
}

/// Reply after clearing the queue.
pub fn queue_cleared_message() -> (r: String)
    ensures
        r@ == "Queue cleared."@,
{
    copy_str("Queue cleared.")
}

/// The loop-state reply.
pub open spec fn loop_status_spec(on: bool) -> Seq<char> {
    if on {
        "Loop on"@
    } else {
        "Loop off"@
    }
}

/// Reports the loop state after a toggle.
pub fn loop_status_message(on: bool) -> (r: String)
    ensures
        r@ == loop_status_spec(on),
{
    if on {
        copy_str("Loop on")
    } else {
        copy_str("Loop off")
    }
}

/// The text naming a removed track.
pub open spec fn removed_spec(artist: Seq<char>, title: Seq<char>) -> Seq<char> {
    "Removed: "@ + artist + " - "@ + title
}

/// Names the removed track.
pub fn removed_message(artist: &str, title: &str) -> (r: String)
    ensures
        r@ == removed_spec(artist@, title@),
{
    let mut r = copy_str("Removed: ");
    r.append(artist);
    r.append(" - ");
    r.append(title);
    r
}

/// Reply to an out-of-range track number.
pub fn invalid_track_message() -> (r: String)
    ensures
        r@ == "Invalid track number."@,
{
    copy_str("Invalid track number.")
}

/// Reply to an unreadable track number.
pub fn invalid_index_input_message() -> (r: String)
    ensures
        r@ == "Please provide a valid track number."@,
{
    copy_str("Please provide a valid track number.")
}

/// Reply to an unreadable seek offset.
pub fn invalid_seconds_message() -> (r: String)
    ensures
        r@ == "Please provide a valid number of seconds."@,
{
    copy_str("Please provide a valid number of seconds.")
}

/// The text confirming a seek.
pub open spec fn seeked_spec(seconds: int) -> Seq<char> {
    "Seeked "@ + dec_signed(seconds) + " seconds"@
}

/// Confirms a seek by the requested offset.
pub fn seeked_message(seconds: i64) -> (r: String)
    ensures
        r@ == seeked_spec(seconds as int),
{
    let mut r = copy_str("Seeked ");
    r.append(i64_dec_string(seconds).as_str());
    r.append(" seconds");
    r
}

/// Reply when no track is playing.
pub fn no_song_message() -> (r: String)
    ensures
        r@ == "No song is currently playing."@,
{
    copy_str("No song is currently playing.")
}

/// The terminal reply after every lyrics lookup attempt has missed.
pub fn lyrics_not_found_message() -> (r: String)
    ensures
        r@
            == "No lyrics found for this song. The lyrics database may not have this track, or it might be too new. Try searching for the official lyrics online."@,
{
    copy_str(
        "No lyrics found for this song. The lyrics database may not have this track, or it might be too new. Try searching for the official lyrics online.",
    )
}

/// Reply confirming lyrics were sent as an attachment.
pub fn lyrics_sent_message() -> (r: String)
    ensures
        r@ == "Lyrics sent as attachment!"@,
{
    copy_str("Lyrics sent as attachment!")
}

/// The attachment file name for a lyrics sheet.
pub open spec fn lyrics_filename_spec(artist: Seq<char>, title: Seq<char>) -> Seq<char> {
    artist + " - "@ + title + " - Lyrics.txt"@
}

/// Builds the attachment file name for a lyrics sheet.
pub fn lyrics_filename(artist: &str, title: &str) -> (r: String)
    ensures
        r@ == lyrics_filename_spec(artist@, title@),
{
    let mut r = copy_str(artist);
    r.append(" - ");
    r.append(title);
    r.append(" - Lyrics.txt");
    r
}

/// The card text pointing at the attached lyrics sheet.
pub open spec fn lyrics_card_spec(artist: Seq<char>, title: Seq<char>) -> Seq<char> {
    "**"@ + title + "** by **"@ + artist + "**\n\nLyrics are attached as a text file above!"@
}

/// Builds the card text pointing at the attached lyrics sheet.
pub fn lyrics_card_text(artist: &str, title: &str) -> (r: String)
    ensures
        r@ == lyrics_card_spec(artist@, title@),
{
    let mut r = copy_str("**");
    r.append(title);
    r.append("** by **");
    r.append(artist);
    r.append("**\n\nLyrics are attached as a text file above!");
    r
}

} // verus!
