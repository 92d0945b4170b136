//! The runtime: it holds the plugins, the keycode namespace that the consumer
//! selected and the slot for the consumer's device-event callback, and routes
//! every read to the plugins.

use crate::aggregate::{
    analog_verdict, collate_analog, heard, is_a_round, lemma_heard_in_full, plain, AnalogAnswer,
};
use crate::analog::Analog;
use crate::buffer::{
    buffer_of, buffer_verdict, gathered, gathered_state, lemma_gathering_takes_answers_in_turn,
    room_left, BufferAnswer, Gathering,
};
use crate::device::{DeviceID, DeviceInfo};
use crate::keycode::{code_hid, lemma_translation_is_a_hid_code, KeycodeType};
use crate::listing::{
    collate_device_info, listing_of, listing_outcome, listing_verdict, listings_of, ListingAnswer,
};
use crate::plugin::{Plugin, Query};
use crate::result::{SDKResult, WootingAnalogResult};
use crate::scancode::ScancodeMap;
use crate::seat::{Parted, Parting, Seat, Seated};
use crate::start::{collate_start, start_verdict, StartAnswer};
use std::collections::HashMap;
use vstd::prelude::*;

verus! {

/// What the runtime is at a given moment, as far as its own rules go.
///
/// A runtime also holds the table between HID usage codes and scan codes.
/// That table is the same in every runtime and at every moment, as the
/// invariant of [`ScancodeMap`] has it, so it is no part of the state.
pub ghost struct SdkState<P, C, L> {
    /// Whether the runtime is initialised.
    pub initialised: bool,
    /// The namespace in which the consumer names keys.
    pub keycode_mode: KeycodeType,
    /// The plugins that the runtime holds, in the order in which they are
    /// asked, each as it was handed in and with the calls made to it.
    pub plugins: Seq<Seated<P>>,
    /// The plugins that the runtime has let go of, the first to go first.
    pub let_go: Seq<Parting<P, L>>,
    /// The libraries that the runtime keeps open for its plugins, in the
    /// order in which they were handed in.
    pub libraries: Seq<L>,
    /// The consumer's device-event callback, where one is set.
    pub callback: Option<C>,
}

/// The state in which a runtime is made.
pub open spec fn fresh_state<P, C, L>() -> SdkState<P, C, L> {
    SdkState {
        initialised: false,
        keycode_mode: KeycodeType::HID,
        plugins: Seq::empty(),
        let_go: Seq::empty(),
        libraries: Seq::empty(),
        callback: None,
    }
}

/// What is left of `plugins` when they are let go of while the runtime keeps
/// `libraries` open: each has been stopped, as the last call made to it.
pub open spec fn stopped<P, L>(plugins: Seq<Seated<P>>, libraries: Seq<L>) -> Seq<Parting<P, L>> {
    plugins.map_values(
        |seated: Seated<P>| Parting { seated: seated.noting(Query::Unload), libraries },
    )
}

/// The state that unloading leaves: no plugin, no library, no callback,
/// uninitialised. Every plugin that was held has been stopped, in order and
/// while all the libraries were still open. The namespace stays as it was
/// selected.
pub open spec fn unloaded<P, C, L>(state: SdkState<P, C, L>) -> SdkState<P, C, L> {
    SdkState {
        initialised: false,
        keycode_mode: state.keycode_mode,
        plugins: Seq::empty(),
        let_go: state.let_go + stopped(state.plugins, state.libraries),
        libraries: Seq::empty(),
        callback: None,
    }
}

/// The state from which the plugins are started: an initialised runtime is
/// unloaded first.
pub open spec fn cleared_for_start<P, C, L>(state: SdkState<P, C, L>) -> SdkState<P, C, L> {
    if state.initialised {
        unloaded(state)
    } else {
        state
    }
}

/// The plugins of which the first `n` have taken one more call, `query`.
pub open spec fn noted<P>(plugins: Seq<Seated<P>>, n: int, query: Query) -> Seq<Seated<P>> {
    Seq::new(
        plugins.len(),
        |j: int|
            if j < n {
                plugins[j].noting(query)
            } else {
                plugins[j]
            },
    )
}

/// The plugins that take part in a start, in the order in which they are
/// started: those that the runtime holds once it is cleared for the start,
/// and behind them the plugins in `loaded`, in the order given.
pub open spec fn lined_up<P, C, L>(state: SdkState<P, C, L>, loaded: Seq<P>) -> Seq<Seated<P>> {
    cleared_for_start(state).plugins + loaded.map_values(|plugin: P| Seated::fresh(plugin))
}

/// The call by which the plugin at place `j` is asked for its keys in a
/// whole-buffer read for at most `max_length` keys, where the plugins before
/// it gave `answers`: it is asked for as many keys as there is room left.
pub open spec fn buffer_query(
    answers: Seq<BufferAnswer>,
    j: int,
    mode: KeycodeType,
    max_length: usize,
    device_id: DeviceID,
) -> Query {
    Query::ReadFullBuffer {
        max_length: room_left(
            max_length as nat,
            gathered(answers.take(j), mode, device_id == 0).len(),
        ) as usize,
        device: device_id,
    }
}

/// The plugins after a whole-buffer read in which they gave `answers`.
pub open spec fn noted_buffer_reads<P>(
    plugins: Seq<Seated<P>>,
    answers: Seq<BufferAnswer>,
    mode: KeycodeType,
    max_length: usize,
    device_id: DeviceID,
) -> Seq<Seated<P>> {
    Seq::new(
        plugins.len(),
        |j: int|
            if j < answers.len() {
                plugins[j].noting(buffer_query(answers, j, mode, max_length, device_id))
            } else {
                plugins[j]
            },
    )
}

/// Whether a whole-buffer read in the namespace `mode`, in which the plugins
/// gave `answers`, takes a runtime from `before` to `after` with `outcome`:
/// the answers are those of a round, the outcome is what is gathered of
/// them, and each plugin that was asked has its query noted.
pub open spec fn is_a_buffer_read<P, C, L>(
    before: SdkState<P, C, L>,
    after: SdkState<P, C, L>,
    mode: KeycodeType,
    max_length: usize,
    device_id: DeviceID,
    answers: Seq<BufferAnswer>,
    outcome: BufferAnswer,
) -> bool {
    &&& is_a_round(answers, before.plugins.len(), device_id)
    &&& outcome == buffer_verdict(answers, mode, device_id)
    &&& after == (SdkState {
        plugins: noted_buffer_reads(before.plugins, answers, mode, max_length, device_id),
        ..before
    })
}

/// A plugin after a listing to which it gave `answer`: every plugin is asked
/// whether it is initialised, and one that is, for its devices.
pub open spec fn after_listing<P>(plugin: Seated<P>, answer: ListingAnswer) -> Seated<P> {
    if answer is None {
        plugin.noting(Query::IsInitialised)
    } else {
        plugin.noting(Query::IsInitialised).noting(Query::DeviceInfo)
    }
}

/// The plugins after a listing in which they gave `answers`.
pub open spec fn noted_listing<P>(plugins: Seq<Seated<P>>, answers: Seq<ListingAnswer>) -> Seq<
    Seated<P>,
> {
    Seq::new(
        plugins.len(),
        |j: int|
            if j < answers.len() {
                after_listing(plugins[j], answers[j])
            } else {
                plugins[j]
            },
    )
}

/// The state after a start with the plugins in `loaded`, of which the outcome
/// is `outcome`: every plugin that takes part has been called to start.
pub open spec fn started<P, C, L>(
    state: SdkState<P, C, L>,
    loaded: Seq<P>,
    outcome: StartAnswer,
) -> SdkState<P, C, L> {
    SdkState {
        initialised: outcome is Ok,
        plugins: noted(
            lined_up(state, loaded),
            lined_up(state, loaded).len() as int,
            Query::Initialise,
        ),
        ..cleared_for_start(state)
    }
}

/// The outcome of selecting the namespace numbered `mode`. `host_has_virtual_keys`
/// says whether the host has a virtual-key layer.
pub open spec fn mode_verdict<P, C, L>(
    state: SdkState<P, C, L>,
    mode: u32,
    host_has_virtual_keys: bool,
) -> WootingAnalogResult {
    if !state.initialised {
        WootingAnalogResult::UnInitialized
    } else if mode > 3 {
        WootingAnalogResult::InvalidArgument
    } else if mode >= 2 && !host_has_virtual_keys {
        WootingAnalogResult::NotAvailable
    } else {
        WootingAnalogResult::OK
    }
}

/// Whether a single-key read of `code` gets as far as asking the plugins: the
/// runtime is initialised and the code names a key. `host` is what the host's
/// keyboard layer answered for `code`; it is read only in the two virtual-key
/// namespaces.
pub open spec fn read_asks<P, C, L>(state: SdkState<P, C, L>, code: u16, host: Option<u32>) -> bool {
    state.initialised && code_hid(code, state.keycode_mode, host) is Some
}

/// What a single-key read of `code` returns where the host's keyboard layer
/// answered `host` for the code and the plugins that are asked give
/// `answers`.
pub open spec fn read_verdict<P, C, L>(
    state: SdkState<P, C, L>,
    code: u16,
    host: Option<u32>,
    device_id: DeviceID,
    answers: Seq<AnalogAnswer>,
) -> AnalogAnswer {
    if !state.initialised {
        Err(WootingAnalogResult::UnInitialized)
    } else if code_hid(code, state.keycode_mode, host) is None {
        Err(WootingAnalogResult::NoMapping)
    } else {
        analog_verdict(answers, device_id)
    }
}

/// The plugins after a single-key read of `code` that asked the first `asked`
/// of them: each was asked for the HID usage code of the key.
pub open spec fn after_read<P, C, L>(
    state: SdkState<P, C, L>,
    code: u16,
    host: Option<u32>,
    device_id: DeviceID,
    asked: int,
) -> Seq<Seated<P>> {
    match code_hid(code, state.keycode_mode, host) {
        Some(hid) => if state.initialised {
            noted(state.plugins, asked, Query::ReadAnalog { code: hid, device: device_id })
        } else {
            state.plugins
        },
        None => state.plugins,
    }
}

/// Whether a single-key read of `code` that finds the runtime in the state
/// `before` can leave it in the state `after` and return `outcome`, the
/// host's keyboard layer having answered `host` for the code and the plugins
/// that the read asks giving `answers`.
pub open spec fn is_a_read<P, C, L>(
    before: SdkState<P, C, L>,
    after: SdkState<P, C, L>,
    code: u16,
    host: Option<u32>,
    device_id: DeviceID,
    answers: Seq<AnalogAnswer>,
    outcome: AnalogAnswer,
) -> bool {
    &&& read_asks(before, code, host) ==> is_a_round(answers, before.plugins.len(), device_id)
    &&& !read_asks(before, code, host) ==> answers.len() == 0
    &&& outcome == read_verdict(before, code, host, device_id, answers)
    &&& after == (SdkState {
        plugins: after_read(before, code, host, device_id, answers.len() as int),
        ..before
    })
}

/// The runtime. `P` is the type of its plugins, `C` that of the consumer's
/// device-event callback and `L` that of the handle by which a library is
/// kept open.
pub struct AnalogSDK<P: Plugin, C, L> {
    /// Whether the runtime is initialised.
    pub initialised: bool,
    /// The namespace in which the consumer names keys.
    pub keycode_mode: KeycodeType,
    plugins: Vec<Seat<P>>,
    let_go: Vec<Parted<P, L>>,
    loaded_libraries: Vec<L>,
    device_event_callback: Option<C>,
    table: ScancodeMap,
}

impl<P: Plugin, C, L> View for AnalogSDK<P, C, L> {
    type V = SdkState<P, C, L>;

    closed spec fn view(&self) -> SdkState<P, C, L> {
        SdkState {
            initialised: self.initialised,
            keycode_mode: self.keycode_mode,
            plugins: self.plugins@.map_values(|seat: Seat<P>| seat@),
            let_go: self.let_go@.map_values(|parted: Parted<P, L>| parted@),
            libraries: self.loaded_libraries@,
            callback: self.device_event_callback,
        }
    }
}

impl<P: Plugin, C, L> AnalogSDK<P, C, L> {
    /// A runtime that holds no plugin and is not initialised. Keys are named
    /// by HID usage codes until another namespace is selected.
    pub fn new() -> (sdk: AnalogSDK<P, C, L>)
        ensures
            sdk@ == fresh_state::<P, C, L>(),
    {
        let sdk = AnalogSDK {
            initialised: false,
            keycode_mode: KeycodeType::HID,
            plugins: Vec::new(),
            let_go: Vec::new(),
            loaded_libraries: Vec::new(),
            device_event_callback: None,
            table: ScancodeMap::new(),
        };
        assert(sdk@.plugins =~= Seq::<Seated<P>>::empty());
        assert(sdk@.let_go =~= Seq::<Parting<P, L>>::empty());
        sdk
    }

    /// Whether the runtime is initialised.
    pub fn is_initialised(&self) -> (b: bool)
        ensures
            b == self@.initialised,
    {
        self.initialised
    }

    /// The namespace in which the consumer names keys.
    pub fn keycode_mode(&self) -> (mode: KeycodeType)
        ensures
            mode == self@.keycode_mode,
    {
        self.keycode_mode
    }

    /// How many plugins the runtime holds.
    pub fn plugin_count(&self) -> (n: usize)
        ensures
            n == self@.plugins.len(),
    {
        self.plugins.len()
    }

    /// The consumer's device-event callback, where one is set.
    pub fn device_event_cb(&self) -> (callback: Option<&C>)
        ensures
            callback is Some == self@.callback is Some,
            callback matches Some(c) ==> Some(*c) == self@.callback,
    {
        self.device_event_callback.as_ref()
    }

    /// How many libraries the runtime keeps open.
    pub fn library_count(&self) -> (n: usize)
        ensures
            n == self@.libraries.len(),
    {
        self.loaded_libraries.len()
    }

    /// Keeps a library open for as long as the runtime holds plugins. A
    /// library is handed in before anything in it is called.
    pub fn retain_library(&mut self, library: L)
        ensures
            final(self)@ == (SdkState {
                libraries: old(self)@.libraries.push(library),
                ..old(self)@
            }),
    {
        self.loaded_libraries.push(library);
    }

    /// The library that was handed in last.
    pub fn last_library(&self) -> (library: Option<&L>)
        ensures
            library is Some <==> self@.libraries.len() > 0,
            library matches Some(last) ==> *last == self@.libraries.last(),
    {
        let n = self.loaded_libraries.len();
        if n == 0 {
            None
        } else {
            Some(&self.loaded_libraries[n - 1])
        }
    }

    /// Hands back the library that was handed in last, for a plugin that
    /// keeps its library itself.
    pub fn release_library(&mut self) -> (library: Option<L>)
        ensures
            library is Some <==> old(self)@.libraries.len() > 0,
            library matches Some(last) ==> last == old(self)@.libraries.last(),
            final(self)@ == (SdkState {
                libraries: if old(self)@.libraries.len() > 0 {
                    old(self)@.libraries.drop_last()
                } else {
                    old(self)@.libraries
                },
                ..old(self)@
            }),
    {
        self.loaded_libraries.pop()
    }

    /// Unloads every plugin, in order, and lets go of it, and only then of the
    /// libraries; empties the callback slot and leaves the runtime
    /// uninitialised.
    pub fn unload(&mut self)
        ensures
            final(self)@ == unloaded(old(self)@),
    {
        let ghost line = self@.plugins;
        let ghost gone = self@.let_go;
        let ghost mut k: int = 0;
        proof {
            assert(line.skip(0) =~= line);
            assert(gone + stopped(line.take(0), self@.libraries) =~= gone);
        }
        while self.plugins.len() > 0
            invariant
                0 <= k <= line.len(),
                self.keycode_mode == old(self).keycode_mode,
                self.loaded_libraries@ == old(self).loaded_libraries@,
                self@.plugins == line.skip(k),
                self@.let_go == gone + stopped(line.take(k), self.loaded_libraries@),
            decreases self.plugins.len(),
        {
            let ghost seats = self@.plugins;
            let ghost notes = self@.let_go;
            let seat = self.plugins.remove(0);
            let parted = seat.unload(&self.loaded_libraries);
            self.let_go.push(parted);
            proof {
                assert(seats.len() == line.len() - k);
                assert(seats[0] == line[k]);
                assert(seat@ == line[k]);
                assert(self@.plugins =~= seats.skip(1));
                assert(self@.plugins =~= line.skip(k + 1));
                assert(self@.let_go =~= notes.push(parted@));
                assert(stopped(line.take(k + 1), self.loaded_libraries@) =~= stopped(
                    line.take(k),
                    self.loaded_libraries@,
                ).push(parted@));
                assert(self@.let_go =~= gone + stopped(line.take(k + 1), self.loaded_libraries@));
                k = k + 1;
            }
        }
        proof {
            assert(line.take(k) =~= line);
            assert(self@.plugins =~= Seq::<Seated<P>>::empty());
        }
        self.loaded_libraries.clear();
        self.device_event_callback = None;
        self.initialised = false;
    }

    /// Makes the runtime ready for a start: if it is initialised, it is
    /// unloaded.
    pub fn prepare_start(&mut self)
        ensures
            final(self)@ == cleared_for_start(old(self)@),
    {
        if self.initialised {
            self.unload();
        }
    }

    /// Seats the plugins in `loaded` behind those that are held, in the order
    /// given.
    fn seat_all(&mut self, loaded: Vec<P>)
        ensures
            final(self)@ == (SdkState {
                plugins: old(self)@.plugins + loaded@.map_values(
                    |plugin: P| Seated::fresh(plugin),
                ),
                ..old(self)@
            }),
    {
        let ghost line = self@.plugins;
        let ghost all = loaded@;
        let ghost mut k: int = 0;
        let mut loaded = loaded;
        proof {
            assert(all.skip(0) =~= all);
            assert(line + all.take(0).map_values(|plugin: P| Seated::fresh(plugin)) =~= line);
        }
        while loaded.len() > 0
            invariant
                0 <= k <= all.len(),
                self.initialised == old(self).initialised,
                self.keycode_mode == old(self).keycode_mode,
                self.device_event_callback == old(self).device_event_callback,
                self.loaded_libraries@ == old(self).loaded_libraries@,
                self.let_go@ == old(self).let_go@,
                loaded@ == all.skip(k),
                self@.plugins == line + all.take(k).map_values(|plugin: P| Seated::fresh(plugin)),
            decreases loaded.len(),
        {
            let ghost seats = self@.plugins;
            let ghost rest = loaded@;
            let plugin = loaded.remove(0);
            let seat = Seat::new(plugin);
            self.plugins.push(seat);
            proof {
                assert(plugin == all[k]);
                assert(loaded@ =~= rest.skip(1));
                assert(loaded@ =~= all.skip(k + 1));
                assert(self@.plugins =~= seats.push(Seated::fresh(plugin)));
                assert(all.take(k + 1).map_values(|plugin: P| Seated::fresh(plugin)) =~= all.take(
                    k,
                ).map_values(|plugin: P| Seated::fresh(plugin)).push(Seated::fresh(plugin)));
                assert(self@.plugins =~= line + all.take(k + 1).map_values(
                    |plugin: P| Seated::fresh(plugin),
                ));
                k = k + 1;
            }
        }
        proof {
            assert(all.take(k) =~= all);
        }
    }

    /// Starts every plugin, in order, and hands back what they answered.
    fn start_all(&mut self) -> (answers: Vec<SDKResult<u32>>)
        ensures
            answers@.len() == old(self)@.plugins.len(),
            final(self)@ == (SdkState {
                plugins: noted(
                    old(self)@.plugins,
                    old(self)@.plugins.len() as int,
                    Query::Initialise,
                ),
                ..old(self)@
            }),
    {
        let ghost line = self@.plugins;
        let mut answers: Vec<SDKResult<u32>> = Vec::new();
        let n = self.plugins.len();
        let mut i: usize = 0;
        assert(self@.plugins =~= noted(line, 0, Query::Initialise));
        while i < n
            invariant
                i <= n,
                n == self.plugins.len(),
                n == line.len(),
                self.initialised == old(self).initialised,
                self.keycode_mode == old(self).keycode_mode,
                self.device_event_callback == old(self).device_event_callback,
                self.loaded_libraries@ == old(self).loaded_libraries@,
                self.let_go@ == old(self).let_go@,
                self@.plugins == noted(line, i as int, Query::Initialise),
                answers.len() == i,
            decreases n - i,
        {
            let ghost held = self@.plugins;
            let ret = self.plugins[i].initialise();
            proof {
                assert(self@.plugins =~= held.update(
                    i as int,
                    held[i as int].noting(Query::Initialise),
                ));
                assert(self@.plugins =~= noted(line, i + 1, Query::Initialise));
            }
            answers.push(ret);
            i += 1;
        }
        answers
    }

    /// Starts the runtime with the plugins in `loaded`.
    ///
    /// An initialised runtime is unloaded first. The plugins in `loaded` take
    /// their places behind those that the runtime still holds, in the order
    /// given. Then every plugin is started, in order. The runtime is
    /// initialised if at least one of them started; one that did not stays
    /// with the runtime without taking part. The libraries of the plugins in
    /// `loaded` are handed in, with [`AnalogSDK::retain_library`], after the
    /// runtime has been made ready with [`AnalogSDK::prepare_start`].
    pub fn initialise_with(&mut self, loaded: Vec<P>) -> (result: SDKResult<u32>)
        ensures
            final(self)@ == started(old(self)@, loaded@, result.0),
            exists|answers: Seq<StartAnswer>|
                answers.len() == final(self)@.plugins.len() && result.0 == start_verdict(answers),
    {
        if self.initialised {
            self.unload();
        }
        self.seat_all(loaded);
        let answers = self.start_all();
        let result = collate_start(&answers);
        self.initialised = result.0.is_ok();
        proof {
            assert(plain(answers@).len() == self@.plugins.len());
            assert(result.0 == start_verdict(plain(answers@)));
        }
        result
    }

    /// Selects the namespace in which the consumer names keys, by its number.
    /// The two virtual-key namespaces can only be selected on a host that
    /// has a virtual-key layer, which `host_has_virtual_keys` says.
    pub fn set_keycode_mode(&mut self, mode: u32, host_has_virtual_keys: bool) -> (result:
        WootingAnalogResult)
        ensures
            result == mode_verdict(old(self)@, mode, host_has_virtual_keys),
            result == WootingAnalogResult::OK ==> final(self)@.keycode_mode.value() == mode,
            result != WootingAnalogResult::OK ==> final(self)@.keycode_mode == old(
                self,
            )@.keycode_mode,
            final(self)@ == (SdkState {
                keycode_mode: final(self)@.keycode_mode,
                ..old(self)@
            }),
    {
        if !self.initialised {
            return WootingAnalogResult::UnInitialized;
        }
        match KeycodeType::from_u32(mode) {
            Some(key_mode) => {
                if key_mode.needs_host() && !host_has_virtual_keys {
                    return WootingAnalogResult::NotAvailable;
                }
                self.keycode_mode = key_mode;
                WootingAnalogResult::OK
            },
            None => WootingAnalogResult::InvalidArgument,
        }
    }

    /// Puts `cb` into the callback slot, in place of what the slot held. An
    /// uninitialised runtime takes no callback.
    pub fn set_device_event_cb(&mut self, cb: C) -> (result: SDKResult<()>)
        ensures
            !old(self)@.initialised ==> result.0 == Err::<(), WootingAnalogResult>(
                WootingAnalogResult::UnInitialized,
            ) && final(self)@ == old(self)@,
            old(self)@.initialised ==> result.0 is Ok && final(self)@ == (SdkState {
                callback: Some(cb),
                ..old(self)@
            }),
    {
        if !self.initialised {
            return SDKResult(Err(WootingAnalogResult::UnInitialized));
        }
        self.device_event_callback = Some(cb);
        SDKResult(Ok(()))
    }

    /// Empties the callback slot. An uninitialised runtime has none to empty.
    pub fn clear_device_event_cb(&mut self) -> (result: SDKResult<()>)
        ensures
            !old(self)@.initialised ==> result.0 == Err::<(), WootingAnalogResult>(
                WootingAnalogResult::UnInitialized,
            ) && final(self)@ == old(self)@,
            old(self)@.initialised ==> result.0 is Ok && final(self)@ == (SdkState {
                callback: None,
                ..old(self)@
            }),
    {
        if !self.initialised {
            return SDKResult(Err(WootingAnalogResult::UnInitialized));
        }
        self.device_event_callback = None;
        SDKResult(Ok(()))
    }

    /// Asks the plugins for the level of the key with HID usage code `hid`, in
    /// order, and hands back what they answered. In a read for one device
    /// the first success ends the round.
    fn ask_analog(&mut self, hid: u16, device_id: DeviceID) -> (answers: Vec<SDKResult<Analog>>)
        ensures
            is_a_round(plain(answers@), old(self)@.plugins.len(), device_id),
            final(self)@ == (SdkState {
                plugins: noted(
                    old(self)@.plugins,
                    answers@.len() as int,
                    Query::ReadAnalog { code: hid, device: device_id },
                ),
                ..old(self)@
            }),
    {
        let ghost line = self@.plugins;
        let ghost query = Query::ReadAnalog { code: hid, device: device_id };
        let mut answers: Vec<SDKResult<Analog>> = Vec::new();
        let n = self.plugins.len();
        let mut i: usize = 0;
        let mut done = false;
        assert(self@.plugins =~= noted(line, 0, query));
        while i < n && !done
            invariant
                i <= n,
                n == self.plugins.len(),
                n == line.len(),
                self.initialised == old(self).initialised,
                self.keycode_mode == old(self).keycode_mode,
                self.device_event_callback == old(self).device_event_callback,
                self.loaded_libraries@ == old(self).loaded_libraries@,
                self.let_go@ == old(self).let_go@,
                query == (Query::ReadAnalog { code: hid, device: device_id }),
                self@.plugins == noted(line, i as int, query),
                answers.len() == i,
                device_id == 0 ==> !done,
                done ==> i > 0 && answers@[i - 1].0 is Ok,
                device_id != 0 ==> forall|j: int|
                    0 <= j < i - if done {
                        1int
                    } else {
                        0int
                    } ==> answers@[j].0 is Err,
            decreases n - i + if done { 0int } else { 1int },
        {
            let ghost held = self@.plugins;
            let answer = self.plugins[i].read_analog(hid, device_id);
            proof {
                assert(self@.plugins =~= held.update(i as int, held[i as int].noting(query)));
                assert(self@.plugins =~= noted(line, i + 1, query));
            }
            //If we were looking to read from a specific device, we've found that read, so no need to continue
            if device_id != 0 && answer.0.is_ok() {
                done = true;
            }
            answers.push(answer);
            i += 1;
        }
        proof {
            let all = plain(answers@);
            if device_id != 0 {
                assert forall|j: int| 0 <= j < all.len() - 1 implies all[j] is Err by {
                    assert(all[j] == answers@[j].0);
                }
                lemma_heard_in_full(all, device_id);
            }
            if done {
                assert(all.last() == answers@[i - 1].0);
            }
        }
        answers
    }

    /// Reads the level of the key with HID usage code `hid`, on the device
    /// `device_id` or, for `0`, on any device: asks the plugins, in order,
    /// and combines what they answer. An uninitialised runtime reads
    /// nothing and asks no plugin.
    pub fn read_analog_hid(&mut self, hid: u16, device_id: DeviceID) -> (result: SDKResult<Analog>)
        ensures
            !old(self)@.initialised ==> final(self)@ == old(self)@ && result.0 == Err::<
                Analog,
                WootingAnalogResult,
            >(WootingAnalogResult::UnInitialized),
            old(self)@.initialised ==> exists|answers: Seq<AnalogAnswer>|
                {
                    &&& is_a_round(answers, old(self)@.plugins.len(), device_id)
                    &&& result.0 == analog_verdict(answers, device_id)
                    &&& final(self)@ == (SdkState {
                        plugins: noted(
                            old(self)@.plugins,
                            answers.len() as int,
                            Query::ReadAnalog { code: hid, device: device_id },
                        ),
                        ..old(self)@
                    })
                },
    {
        if !self.initialised {
            return SDKResult(Err(WootingAnalogResult::UnInitialized));
        }
        let answers = self.ask_analog(hid, device_id);
        let result = collate_analog(&answers, device_id);
        proof {
            let heard_answers = plain(answers@);
            assert(is_a_round(heard_answers, old(self)@.plugins.len(), device_id));
            assert(result.0 == analog_verdict(heard_answers, device_id));
        }
        result
    }

    /// Reads the level of the key that `code` names in the selected
    /// namespace, on the device `device_id` or, for `0`, on any device, on a
    /// host without a virtual-key layer.
    ///
    /// An uninitialised runtime reads nothing. A code that names no key is
    /// `NoMapping`. In both cases no plugin is asked. Else the plugins are
    /// asked, in order, for the key's HID usage code, and what they answer is
    /// combined.
    pub fn read_analog(&mut self, code: u16, device_id: DeviceID) -> (result: SDKResult<Analog>)
        ensures
            !old(self)@.initialised ==> result.0 == Err::<Analog, WootingAnalogResult>(
                WootingAnalogResult::UnInitialized,
            ),
            old(self)@.initialised && code_hid(code, old(self)@.keycode_mode, None) is None
                ==> result.0 == Err::<Analog, WootingAnalogResult>(WootingAnalogResult::NoMapping),
            !read_asks(old(self)@, code, None) ==> final(self)@ == old(self)@,
            exists|answers: Seq<AnalogAnswer>|
                is_a_read(old(self)@, final(self)@, code, None, device_id, answers, result.0),
    {
        self.read_analog_on_host(code, device_id, None)
    }

    /// Reads the level of the key that `code` names in the selected
    /// namespace, where the host's keyboard layer answered `host` for the
    /// code. The answer is read only in the two virtual-key namespaces.
    ///
    /// An uninitialised runtime reads nothing. A code that names no key is
    /// `NoMapping`. In both cases no plugin is asked. Else the plugins are
    /// asked, in order, for the key's HID usage code, and what they answer is
    /// combined.
    pub fn read_analog_on_host(&mut self, code: u16, device_id: DeviceID, host: Option<u32>) -> (result:
        SDKResult<Analog>)
        ensures
            !old(self)@.initialised ==> result.0 == Err::<Analog, WootingAnalogResult>(
                WootingAnalogResult::UnInitialized,
            ),
            old(self)@.initialised && code_hid(code, old(self)@.keycode_mode, host) is None
                ==> result.0 == Err::<Analog, WootingAnalogResult>(WootingAnalogResult::NoMapping),
            !read_asks(old(self)@, code, host) ==> final(self)@ == old(self)@,
            exists|answers: Seq<AnalogAnswer>|
                is_a_read(old(self)@, final(self)@, code, host, device_id, answers, result.0),
    {
        let ghost before = self@;
        let ghost mut heard_answers: Seq<AnalogAnswer> = Seq::empty();
        let result = if !self.initialised {
            SDKResult(Err(WootingAnalogResult::UnInitialized))
        } else {
            //Try and map the given keycode to HID
            match self.table.code_to_hid(code, &self.keycode_mode, host) {
                Some(hid) => {
                    let answers = self.ask_analog(hid, device_id);
                    proof {
                        heard_answers = plain(answers@);
                    }
                    collate_analog(&answers, device_id)
                },
                None => SDKResult(Err(WootingAnalogResult::NoMapping)),
            }
        };
        proof {
            assert(read_asks(before, code, host) ==> is_a_round(
                heard_answers,
                before.plugins.len(),
                device_id,
            ));
            assert(result.0 == read_verdict(before, code, host, device_id, heard_answers));
            assert(self@.plugins == after_read(
                before,
                code,
                host,
                device_id,
                heard_answers.len() as int,
            ));
            assert(self@ == (SdkState {
                plugins: after_read(before, code, host, device_id, heard_answers.len() as int),
                ..before
            }));
            assert(is_a_read(before, self@, code, host, device_id, heard_answers, result.0));
        }
        result
    }

    /// Asks the plugins in order, each for as many keys as there is still
    /// room for, and gathers what they hand over under the codes of the
    /// namespace `mode`.
    fn gather(&mut self, max_length: usize, device_id: DeviceID, mode: KeycodeType) -> (result: SDKResult<
        HashMap<u16, Analog>,
    >)
        ensures
            exists|answers: Seq<BufferAnswer>|
                is_a_buffer_read(
                    old(self)@,
                    final(self)@,
                    mode,
                    max_length,
                    device_id,
                    answers,
                    buffer_of(result),
                ),
    {
        let ghost line = self@.plugins;
        let mut gathering = Gathering::new();
        let ghost mut answers: Seq<BufferAnswer> = Seq::empty();
        let n = self.plugins.len();
        let mut i: usize = 0;
        let mut done = false;
        proof {
            lemma_gathering_takes_answers_in_turn(
                answers,
                Err(WootingAnalogResult::OK),
                mode,
                device_id == 0,
            );
            assert(self@.plugins =~= noted_buffer_reads(
                line,
                answers,
                mode,
                max_length,
                device_id,
            ));
        }
        while i < n && !done
            invariant
                i <= n,
                n == self.plugins.len(),
                n == line.len(),
                self.initialised == old(self).initialised,
                self.keycode_mode == old(self).keycode_mode,
                self.device_event_callback == old(self).device_event_callback,
                self.loaded_libraries@ == old(self).loaded_libraries@,
                self.let_go@ == old(self).let_go@,
                self@.plugins == noted_buffer_reads(
                    line,
                    answers,
                    mode,
                    max_length,
                    device_id,
                ),
                answers.len() == i,
                gathering@ == gathered_state(answers, mode, device_id == 0),
                device_id == 0 ==> !done,
                done ==> i > 0 && answers[i - 1] is Ok,
                device_id != 0 ==> forall|j: int|
                    0 <= j < i - if done {
                        1int
                    } else {
                        0int
                    } ==> answers[j] is Err,
            decreases n - i + if done { 0int } else { 1int },
        {
            let ghost seats = self@.plugins;
            let ghost before = answers;
            let room = gathering.room(max_length);
            let answer = self.plugins[i].read_full_buffer(room, device_id);
            proof {
                answers = before.push(buffer_of(answer));
                lemma_gathering_takes_answers_in_turn(
                    before,
                    buffer_of(answer),
                    mode,
                    device_id == 0,
                );
                assert(answers.take(i as int) =~= before);
                assert(buffer_query(answers, i as int, mode, max_length, device_id) == (
                Query::ReadFullBuffer { max_length: room, device: device_id }));
                assert(self@.plugins =~= seats.update(
                    i as int,
                    seats[i as int].noting(
                        Query::ReadFullBuffer { max_length: room, device: device_id },
                    ),
                ));
                assert forall|j: int| 0 <= j < i implies buffer_query(
                    answers,
                    j,
                    mode,
                    max_length,
                    device_id,
                ) == buffer_query(before, j, mode, max_length, device_id) by {
                    assert(answers.take(j) =~= before.take(j));
                }
                assert(self@.plugins =~= noted_buffer_reads(
                    line,
                    answers,
                    mode,
                    max_length,
                    device_id,
                ));
            }
            gathering.take(&answer, &mode, device_id == 0, &self.table);
            //If we are looking for a specific device, just break out when we find one that returns good
            if device_id != 0 && answer.0.is_ok() {
                done = true;
            }
            i += 1;
        }
        let result = gathering.finish();
        proof {
            if device_id != 0 {
                lemma_heard_in_full(answers, device_id);
            }
            assert(heard(answers, device_id) == answers);
            assert(is_a_round(answers, n as nat, device_id));
            assert(buffer_of(result) == buffer_verdict(answers, mode, device_id));
            assert(is_a_buffer_read(
                old(self)@,
                self@,
                mode,
                max_length,
                device_id,
                answers,
                buffer_of(result),
            ));
        }
        result
    }


    /// Reads the pressed keys of the device `device_id` or, for `0`, of all
    /// devices, at most `max_length` of them, each under the code that names
    /// it in the selected namespace.
    ///
    /// An uninitialised runtime reads nothing and asks no plugin. Else the
    /// plugins are asked in order, each for as many keys as there is still
    /// room for, and what they hand over is gathered.
    pub fn read_full_buffer(&mut self, max_length: usize, device_id: DeviceID) -> (result: SDKResult<
        HashMap<u16, Analog>,
    >)
        ensures
            !old(self)@.initialised ==> final(self)@ == old(self)@ && buffer_of(result) == Err::<
                Map<u16, Analog>,
                WootingAnalogResult,
            >(WootingAnalogResult::UnInitialized),
            old(self)@.initialised ==> exists|answers: Seq<BufferAnswer>|
                is_a_buffer_read(
                    old(self)@,
                    final(self)@,
                    old(self)@.keycode_mode,
                    max_length,
                    device_id,
                    answers,
                    buffer_of(result),
                ),
    {
        if !self.initialised {
            return SDKResult(Err(WootingAnalogResult::UnInitialized));
        }
        let mode = self.keycode_mode;
        self.gather(max_length, device_id, mode)
    }

    /// A whole-buffer read that leaves every key under its HID usage code,
    /// whatever the namespace of the runtime: for a namespace in which the
    /// host's keyboard layer names the keys, which
    /// [`name_on_host`](crate::buffer::name_on_host) then does with the
    /// answers of the host.
    pub fn read_full_buffer_hid(&mut self, max_length: usize, device_id: DeviceID) -> (result: SDKResult<
        HashMap<u16, Analog>,
    >)
        ensures
            !old(self)@.initialised ==> final(self)@ == old(self)@ && buffer_of(result) == Err::<
                Map<u16, Analog>,
                WootingAnalogResult,
            >(WootingAnalogResult::UnInitialized),
            old(self)@.initialised ==> exists|answers: Seq<BufferAnswer>|
                is_a_buffer_read(
                    old(self)@,
                    final(self)@,
                    KeycodeType::HID,
                    max_length,
                    device_id,
                    answers,
                    buffer_of(result),
                ),
    {
        if !self.initialised {
            return SDKResult(Err(WootingAnalogResult::UnInitialized));
        }
        self.gather(max_length, device_id, KeycodeType::HID)
    }

    /// Asks every plugin whether it is initialised, and each that is, for its
    /// devices; hands back what they answered, in order.
    fn ask_devices(&mut self) -> (answers: Vec<Option<SDKResult<Vec<DeviceInfo>>>>)
        ensures
            answers@.len() == old(self)@.plugins.len(),
            final(self)@ == (SdkState {
                plugins: noted_listing(old(self)@.plugins, listings_of(answers@)),
                ..old(self)@
            }),
    {
        let ghost line = self@.plugins;
        let mut answers: Vec<Option<SDKResult<Vec<DeviceInfo>>>> = Vec::new();
        let n = self.plugins.len();
        let mut i: usize = 0;
        assert(self@.plugins =~= noted_listing(line, listings_of(answers@)));
        while i < n
            invariant
                i <= n,
                n == self.plugins.len(),
                n == line.len(),
                self.initialised == old(self).initialised,
                self.keycode_mode == old(self).keycode_mode,
                self.device_event_callback == old(self).device_event_callback,
                self.loaded_libraries@ == old(self).loaded_libraries@,
                self.let_go@ == old(self).let_go@,
                self@.plugins == noted_listing(line, listings_of(answers@)),
                answers.len() == i,
            decreases n - i,
        {
            let ghost seats = self@.plugins;
            let ghost before = listings_of(answers@);
            let answer = if self.plugins[i].is_initialised() {
                Some(self.plugins[i].device_info())
            } else {
                None
            };
            proof {
                assert(self@.plugins =~= seats.update(
                    i as int,
                    after_listing(seats[i as int], listing_of(answer)),
                ));
            }
            answers.push(answer);
            proof {
                let now = listings_of(answers@);
                assert(now.len() == i + 1);
                assert(now[i as int] == listing_of(answer));
                assert forall|j: int| 0 <= j < i implies now[j] == before[j] by {}
                assert(self@.plugins =~= noted_listing(line, now));
            }
            i += 1;
        }
        answers
    }

    /// Lists the devices that are connected.
    ///
    /// An uninitialised runtime lists nothing and asks no plugin. Else every
    /// plugin is asked whether it is initialised, and one that is, for its
    /// devices; the lists are put together.
    pub fn get_device_info(&mut self) -> (result: SDKResult<Vec<DeviceInfo>>)
        ensures
            !old(self)@.initialised ==> final(self)@ == old(self)@ && listing_outcome(result)
                == Err::<Seq<DeviceInfo>, WootingAnalogResult>(WootingAnalogResult::UnInitialized),
            old(self)@.initialised ==> exists|answers: Seq<ListingAnswer>|
                {
                    &&& answers.len() == old(self)@.plugins.len()
                    &&& listing_outcome(result) == listing_verdict(answers)
                    &&& final(self)@ == (SdkState {
                        plugins: noted_listing(old(self)@.plugins, answers),
                        ..old(self)@
                    })
                },
    {
        if !self.initialised {
            return SDKResult(Err(WootingAnalogResult::UnInitialized));
        }
        let answers = self.ask_devices();
        let ghost heard_answers = listings_of(answers@);
        let result = collate_device_info(answers);
        proof {
            assert(heard_answers.len() == old(self)@.plugins.len());
            assert(listing_outcome(result) == listing_verdict(heard_answers));
        }
        result
    }
}

impl<P: Plugin, C, L> Default for AnalogSDK<P, C, L> {
    /// A runtime as [`AnalogSDK::new`] makes it.
    fn default() -> (sdk: AnalogSDK<P, C, L>)
        ensures
            sdk@ == fresh_state::<P, C, L>(),
    {
        AnalogSDK::new()
    }
}

/// Unloading twice leaves what unloading once leaves: the second time no
/// plugin is there to be stopped.
pub proof fn lemma_unload_is_idempotent<P, C, L>(state: SdkState<P, C, L>)
    ensures
        unloaded(unloaded(state)) == unloaded(state),
{
    let once = unloaded(state);
    assert(once.let_go + stopped(once.plugins, once.libraries) =~= once.let_go);
}

/// Unloading stops every plugin that is held exactly once, as the last call
/// made to it and while all the libraries are still open; and it lets go of
/// them in order.
pub proof fn lemma_unload_stops_every_plugin<P, C, L>(state: SdkState<P, C, L>, j: int)
    requires
        0 <= j < state.plugins.len(),
    ensures
        unloaded(state).let_go.len() == state.let_go.len() + state.plugins.len(),
        unloaded(state).let_go[state.let_go.len() + j] == (Parting {
            seated: Seated {
                plugin: state.plugins[j].plugin,
                asked: state.plugins[j].asked.push(Query::Unload),
            },
            libraries: state.libraries,
        }),
        forall|i: int| 0 <= i < state.let_go.len() ==> unloaded(state).let_go[i] == state.let_go[i],
{
}

/// After unloading, the runtime is not initialised; after starting, it is
/// initialised exactly when the start succeeded.
pub proof fn lemma_initialised_follows_the_lifecycle<P, C, L>(
    state: SdkState<P, C, L>,
    loaded: Seq<P>,
    outcome: StartAnswer,
)
    ensures
        !unloaded(state).initialised,
        started(state, loaded, outcome).initialised == outcome is Ok,
{
}

/// Starting an initialised runtime is starting an unloaded one. The plugins
/// that were held have been stopped and let go of, and nothing of the earlier
/// start stays but the namespace: the plugins are the new ones, in the order
/// given, and each has been called once, to start.
pub proof fn lemma_start_begins_afresh<P, C, L>(
    state: SdkState<P, C, L>,
    loaded: Seq<P>,
    outcome: StartAnswer,
)
    requires
        state.initialised,
    ensures
        started(state, loaded, outcome) == started(unloaded(state), loaded, outcome),
        started(state, loaded, outcome) == (SdkState::<P, C, L> {
            initialised: outcome is Ok,
            keycode_mode: state.keycode_mode,
            plugins: loaded.map_values(
                |plugin: P| Seated { plugin, asked: seq![Query::Initialise] },
            ),
            let_go: state.let_go + stopped(state.plugins, state.libraries),
            libraries: Seq::empty(),
            callback: None,
        }),
{
    let line = lined_up(state, loaded);
    assert(line =~= loaded.map_values(|plugin: P| Seated::fresh(plugin)));
    assert forall|j: int| 0 <= j < loaded.len() implies #[trigger] noted(
        line,
        line.len() as int,
        Query::Initialise,
    )[j] == (Seated { plugin: loaded[j], asked: seq![Query::Initialise] }) by {
        assert(line[j].asked.push(Query::Initialise) =~= seq![Query::Initialise]);
    }
    assert(started(state, loaded, outcome).plugins =~= loaded.map_values(
        |plugin: P| Seated { plugin, asked: seq![Query::Initialise] },
    ));
}

/// A start of a runtime that is not initialised keeps the plugins that it
/// holds, in their order, and puts the new ones behind them.
pub proof fn lemma_start_keeps_the_order<P, C, L>(
    state: SdkState<P, C, L>,
    loaded: Seq<P>,
    outcome: StartAnswer,
    j: int,
)
    requires
        !state.initialised,
        0 <= j < state.plugins.len() + loaded.len(),
    ensures
        started(state, loaded, outcome).plugins.len() == state.plugins.len() + loaded.len(),
        j < state.plugins.len() ==> started(state, loaded, outcome).plugins[j]
            == state.plugins[j].noting(Query::Initialise),
        j >= state.plugins.len() ==> started(state, loaded, outcome).plugins[j] == Seated::fresh(
            loaded[j - state.plugins.len()],
        ).noting(Query::Initialise),
{
}

/// The call that a single-key read of `code` in the namespace `mode` makes to
/// each plugin that it asks, where the host's keyboard layer answered `host`
/// for the code; `None` where the code names no key, and no plugin is asked.
pub open spec fn analog_query(
    code: u16,
    mode: KeycodeType,
    host: Option<u32>,
    device_id: DeviceID,
) -> Option<Query> {
    match code_hid(code, mode, host) {
        Some(hid) => Some(Query::ReadAnalog { code: hid, device: device_id }),
        None => None,
    }
}

/// A read in a namespace asks the plugins what a read of the translated code
/// asks them in the namespace of the HID usage codes.
pub proof fn lemma_reads_ask_for_the_hid_code(
    code: u16,
    mode: KeycodeType,
    host: Option<u32>,
    device_id: DeviceID,
    hid: u16,
)
    requires
        code_hid(code, mode, host) == Some(hid),
    ensures
        analog_query(code, mode, host, device_id) == analog_query(
            hid,
            KeycodeType::HID,
            None,
            device_id,
        ),
{
    lemma_translation_is_a_hid_code(code, mode, host, hid);
}

/// A read in a namespace is the read of the translated code in the namespace
/// of the HID usage codes: where the plugins answer the same to both, both
/// return the same, and both have asked the same plugins the same.
pub proof fn lemma_a_read_is_the_read_of_the_hid_code<P, C, L>(
    state: SdkState<P, C, L>,
    code: u16,
    host: Option<u32>,
    device_id: DeviceID,
    hid: u16,
    answers: Seq<AnalogAnswer>,
)
    requires
        state.initialised,
        code_hid(code, state.keycode_mode, host) == Some(hid),
    ensures
        ({
            let in_hid = SdkState { keycode_mode: KeycodeType::HID, ..state };
            &&& read_asks(in_hid, hid, None)
            &&& read_verdict(state, code, host, device_id, answers) == read_verdict(
                in_hid,
                hid,
                None,
                device_id,
                answers,
            )
            &&& after_read(state, code, host, device_id, answers.len() as int) == after_read(
                in_hid,
                hid,
                None,
                device_id,
                answers.len() as int,
            )
        }),
{
    lemma_translation_is_a_hid_code(code, state.keycode_mode, host, hid);
}

} // verus!
