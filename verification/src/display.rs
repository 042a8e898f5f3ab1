//! The display's one-shot initialisation state and the drawing interface
//! that consults it.
use crate::device::{
    lemma_probe_finish_result, lemma_ramfb_layout_valid, ramfb_info, reply_view, reply_len,
    FwCfgTransfer, ProbeAction, ProbeStage, RamfbProbe, FRAMEBUFFER_HEIGHT, FRAMEBUFFER_PIXELS,
    FRAMEBUFFER_SIZE, FRAMEBUFFER_WIDTH, FW_CFG_SIGNATURE,
};
use crate::error::VgaError;
use crate::framebuffer::{
    self, lemma_clear_paints_requested_color, lemma_invisible_pixel_refused,
    lemma_valid_layout_cleared, lemma_visible_pixel_drawn, spec_clear_screen, spec_draw_pixel, FramebufferInfo,
    PixelWrite, ScreenFill,
};
use vstd::prelude::*;

verus! {

/// Initialisation has not started, or failed and was rolled back.
pub const STATE_UNINITIALIZED: u8 = 0;

/// Initialisation is running.
pub const STATE_INITIALIZING: u8 = 1;

/// Initialisation succeeded; the framebuffer layout is recorded.
pub const STATE_INITIALIZED: u8 = 2;

/// The display's state: the initialisation phase and, once initialised,
/// the framebuffer layout, which does not change afterwards.
#[derive(Debug)]
pub struct DisplayState {
    init_state: u8,
    info: Option<FramebufferInfo>,
}

impl DisplayState {
    #[verifier::type_invariant]
    spec fn layout_recorded_when_initialized(self) -> bool {
        self.init_state == STATE_INITIALIZED ==> (self.info matches Some(info)
            && info.is_valid_layout())
    }

    /// The initialisation phase.
    pub closed spec fn phase(self) -> u8 {
        self.init_state
    }

    /// The framebuffer layout, present exactly when initialisation succeeded.
    pub closed spec fn configured(self) -> Option<FramebufferInfo> {
        if self.init_state == STATE_INITIALIZED {
            self.info
        } else {
            None
        }
    }

    /// The layout that drawing uses, or `NotInitialized`.
    pub open spec fn spec_current(self) -> Result<FramebufferInfo, VgaError> {
        match self.configured() {
            Some(info) => Ok(info),
            None => Err(VgaError::NotInitialized),
        }
    }

    /// The answer to a request to start initialisation: accepted when
    /// uninitialised, `AlreadyInitialized` while running or after success,
    /// `MmioFault` for a phase that is none of the three.
    pub open spec fn spec_begin_init(self) -> Result<(), VgaError> {
        if self.phase() == STATE_UNINITIALIZED {
            Ok(())
        } else if self.phase() == STATE_INITIALIZING || self.phase() == STATE_INITIALIZED {
            Err(VgaError::AlreadyInitialized)
        } else {
            Err(VgaError::MmioFault)
        }
    }

    /// An uninitialised display.
    pub fn new() -> (r: Self)
        ensures
            r.phase() == STATE_UNINITIALIZED,
            r.configured() is None,
    {
        DisplayState { init_state: STATE_UNINITIALIZED, info: None }
    }

    /// The initialisation phase.
    pub fn init_state(&self) -> (r: u8)
        ensures
            r == self.phase(),
    {
        self.init_state
    }

    /// Claims initialisation: an uninitialised display moves to the running
    /// phase; any other display is left as it is and the claim is refused.
    pub fn begin_init(&mut self) -> (r: Result<(), VgaError>)
        ensures
            r == old(self).spec_begin_init(),
            r is Ok ==> final(self).phase() == STATE_INITIALIZING && final(self).configured() is None,
            r is Err ==> final(self).phase() == old(self).phase() && final(self).configured()
                == old(self).configured(),
    {
        if self.init_state == STATE_UNINITIALIZED {
            self.init_state = STATE_INITIALIZING;
            Ok(())
        } else if self.init_state == STATE_INITIALIZING || self.init_state == STATE_INITIALIZED {
            Err(VgaError::AlreadyInitialized)
        } else {
            Err(VgaError::MmioFault)
        }
    }

    /// Ends a running initialisation with the outcome of the device probe.
    ///
    /// A probe failure, or a layout that breaks the layout rules, rolls the
    /// display back to uninitialised and is reported with nothing to write.
    /// A valid layout is cleared to black: the returned fill is that of
    /// [`framebuffer::clear_screen`] with color 0. When the fill succeeds the
    /// layout is recorded and the display is initialised; when it fails the
    /// display is rolled back.
    pub fn finish_init(&mut self, device: Result<FramebufferInfo, VgaError>) -> (r: ScreenFill)
        requires
            old(self).phase() == STATE_INITIALIZING,
        ensures
            spec_finish_init(device, r, *final(self)),
    {
        match device {
            Err(e) => {
                self.init_state = STATE_UNINITIALIZED;
                ScreenFill { base: 0, count: 0, color: 0, outcome: Err(e) }
            },
            Ok(info) => {
                if let Err(e) = info.validate_layout() {
                    self.init_state = STATE_UNINITIALIZED;
                    return ScreenFill { base: 0, count: 0, color: 0, outcome: Err(e) };
                }
                let fill = framebuffer::clear_screen(&info, 0);
                match fill.outcome {
                    Ok(()) => {
                        self.info = Some(info);
                        self.init_state = STATE_INITIALIZED;
                    },
                    Err(_) => {
                        self.init_state = STATE_UNINITIALIZED;
                    },
                }
                fill
            },
        }
    }

    /// Starts initialisation: claims it as [`DisplayState::begin_init`]
    /// does and, when the claim is accepted, starts the ramfb probe for the
    /// framebuffer at `framebuffer_paddr`, giving the probe and its first
    /// transfer.
    pub fn start_init(&mut self, framebuffer_paddr: usize) -> (r: Result<
        (RamfbProbe, FwCfgTransfer),
        VgaError,
    >)
        ensures
            r is Ok <==> old(self).spec_begin_init() is Ok,
            r matches Err(e) ==> old(self).spec_begin_init() == Err::<(), VgaError>(e)
                && final(self).phase() == old(self).phase() && final(self).configured() == old(
                self,
            ).configured(),
            r matches Ok((probe, transfer)) ==> probe == (RamfbProbe {
                stage: ProbeStage::Signature,
                framebuffer_paddr,
            }) && transfer == (FwCfgTransfer::ReadItem { selector: FW_CFG_SIGNATURE, len: 4 })
                && final(self).phase() == STATE_INITIALIZING && final(self).configured() is None,
    {
        match self.begin_init() {
            Err(e) => Err(e),
            Ok(()) => {
                let (probe, _) = RamfbProbe::new(framebuffer_paddr);
                Ok((probe, FwCfgTransfer::ReadItem { selector: FW_CFG_SIGNATURE, len: 4 }))
            },
        }
    }

    /// Continues a running initialisation with the outcome of the transfer
    /// the probe asked for last: the probe takes one step; while it asks for
    /// transfers the display keeps initialising, and when it finishes its
    /// result ends the initialisation as [`DisplayState::finish_init`] does.
    pub fn continue_init(&mut self, probe: &mut RamfbProbe, reply: Result<&[u8], VgaError>) -> (r:
        InitAction)
        requires
            old(self).phase() == STATE_INITIALIZING,
            old(probe).stage != ProbeStage::Done,
            reply matches Ok(d) ==> d@.len() == reply_len(old(probe).stage),
        ensures
            spec_continue_init(*old(probe), reply_view(reply), *final(probe), r, *final(self)),
    {
        let ghost before = *probe;
        let action = probe.step(reply);
        match action {
            ProbeAction::Transfer(transfer) => InitAction::Transfer(transfer),
            ProbeAction::Finish(result) => {
                proof {
                    lemma_probe_finish_result(before, reply_view(reply), *probe, action);
                }
                InitAction::Finish(self.finish_init(result))
            },
        }
    }

    /// The recorded layout, or `NotInitialized` before initialisation
    /// succeeded.
    pub fn current_info(&self) -> (r: Result<FramebufferInfo, VgaError>)
        ensures
            r == self.spec_current(),
            r matches Ok(info) ==> info.is_valid_layout(),
    {
        proof {
            use_type_invariant(self);
        }
        if self.init_state != STATE_INITIALIZED {
            return Err(VgaError::NotInitialized);
        }
        match self.info {
            Some(info) => Ok(info),
            None => Err(VgaError::NotInitialized),
        }
    }
}

/// Nothing is written, and `e` is reported.
pub open spec fn no_fill(e: VgaError) -> ScreenFill {
    ScreenFill { base: 0, count: 0, color: 0, outcome: Err(e) }
}

/// The fill that ends an initialisation given the probe's outcome: nothing
/// on a probe failure or a layout that breaks the layout rules, otherwise
/// clearing the layout to black.
pub open spec fn spec_finish_fill(device: Result<FramebufferInfo, VgaError>) -> ScreenFill {
    match device {
        Err(e) => no_fill(e),
        Ok(info) => match info.spec_validate_layout() {
            Err(e) => no_fill(e),
            Ok(()) => spec_clear_screen(info, 0),
        },
    }
}

/// How an initialisation ends: with the fill of [`spec_finish_fill`]; a
/// successful fill records the layout, a failed one rolls back.
pub open spec fn spec_finish_init(
    device: Result<FramebufferInfo, VgaError>,
    fill: ScreenFill,
    after: DisplayState,
) -> bool {
    &&& fill == spec_finish_fill(device)
    &&& fill.outcome is Ok ==> after.phase() == STATE_INITIALIZED && after.configured() == Some(
        device->Ok_0,
    )
    &&& fill.outcome is Err ==> after.phase() == STATE_UNINITIALIZED && after.configured() is None
}

/// What a running initialisation asks of its caller next.
#[derive(Clone, Copy, Debug, PartialEq, Eq)]
pub enum InitAction {
    /// Perform this fw_cfg transfer and report its outcome to
    /// [`DisplayState::continue_init`].
    Transfer(FwCfgTransfer),
    /// Initialisation is over: perform these stores, then report the fill's outcome.
    Finish(ScreenFill),
}

/// One step of a running initialisation: the probe steps on `reply`; a
/// transfer it asks for is passed on with the display still initialising;
/// a result it finishes with ends the initialisation.
pub open spec fn spec_continue_init(
    probe: RamfbProbe,
    reply: Result<Seq<u8>, VgaError>,
    next: RamfbProbe,
    action: InitAction,
    after: DisplayState,
) -> bool {
    match action {
        InitAction::Transfer(t) => {
            &&& probe.spec_step(reply, next, ProbeAction::Transfer(t))
            &&& after.phase() == STATE_INITIALIZING
            &&& after.configured() is None
        },
        InitAction::Finish(fill) => {
            &&& probe.spec_step(reply, next, ProbeAction::Finish(probe.spec_finish_result(reply)))
            &&& spec_finish_init(probe.spec_finish_result(reply), fill, after)
        },
    }
}

/// The store that draws pixel `(x, y)` of an initialised display.
pub open spec fn spec_display_draw_pixel(display: DisplayState, x: u32, y: u32, color: u32) -> Result<
    PixelWrite,
    VgaError,
> {
    match display.spec_current() {
        Err(e) => Err(e),
        Ok(info) => spec_draw_pixel(info, x, y, color),
    }
}

/// The fill that clears an initialised display to `color`.
pub open spec fn spec_display_clear_screen(display: DisplayState, color: u32) -> ScreenFill {
    match display.spec_current() {
        Err(e) => ScreenFill { base: 0, count: 0, color, outcome: Err(e) },
        Ok(info) => spec_clear_screen(info, color),
    }
}

/// The visible size of an initialised display.
pub open spec fn spec_resolution(display: DisplayState) -> Result<(u32, u32), VgaError> {
    match display.spec_current() {
        Err(e) => Err(e),
        Ok(info) => Ok((info.width, info.height)),
    }
}

/// Computes the store that draws pixel `(x, y)` in `color`:
/// `NotInitialized` before initialisation, otherwise as
/// [`framebuffer::draw_pixel`] on the recorded layout.
pub fn draw_pixel(display: &DisplayState, x: u32, y: u32, color: u32) -> (r: Result<
    PixelWrite,
    VgaError,
>)
    ensures
        r == spec_display_draw_pixel(*display, x, y, color),
        display.configured() is None ==> r == Err::<PixelWrite, VgaError>(VgaError::NotInitialized),
        display.configured() matches Some(info) ==> (if x < info.width && y < info.height {
            r == Ok::<PixelWrite, VgaError>(
                PixelWrite {
                    addr: (info.framebuffer_paddr + (y * info.stride + x) * 4) as usize,
                    color,
                },
            )
        } else {
            r == Err::<PixelWrite, VgaError>(VgaError::InvalidPixelPosition)
        }),
{
    proof {
        use_type_invariant(display);
        if let Some(info) = display.configured() {
            if x < info.width && y < info.height {
                lemma_visible_pixel_drawn(info, x, y, color);
            } else {
                lemma_invisible_pixel_refused(info, x, y, color);
            }
        }
    }
    match display.current_info() {
        Ok(info) => framebuffer::draw_pixel(&info, x, y, color),
        Err(e) => Err(e),
    }
}

/// Computes the fill that clears the screen to `color`: nothing to write
/// and `NotInitialized` before initialisation, otherwise as
/// [`framebuffer::clear_screen`] on the recorded layout.
pub fn clear_screen(display: &DisplayState, color: u32) -> (r: ScreenFill)
    ensures
        r == spec_display_clear_screen(*display, color),
        r.color == color,
        display.configured() is None ==> r.count == 0 && r.outcome == Err::<(), VgaError>(
            VgaError::NotInitialized,
        ),
        display.configured() matches Some(info) ==> r.base == info.framebuffer_paddr && (if info.framebuffer_size % 4 == 0 {
            r.count * 4 == info.framebuffer_size && r.outcome == Ok::<(), VgaError>(())
        } else {
            r.count == 0 && r.outcome == Err::<(), VgaError>(VgaError::InvalidFramebuffer)
        }),
{
    proof {
        use_type_invariant(display);
        if let Some(info) = display.configured() {
            lemma_clear_paints_requested_color(info, color);
        }
    }
    match display.current_info() {
        Ok(info) => framebuffer::clear_screen(&info, color),
        Err(e) => ScreenFill { base: 0, count: 0, color, outcome: Err(e) },
    }
}

/// The visible width and height, or `NotInitialized`.
pub fn resolution(display: &DisplayState) -> (r: Result<(u32, u32), VgaError>)
    ensures
        r == spec_resolution(*display),
{
    match display.current_info() {
        Ok(info) => Ok((info.width, info.height)),
        Err(e) => Err(e),
    }
}

/// A copy of the recorded framebuffer layout, or `NotInitialized`.
pub fn framebuffer_info(display: &DisplayState) -> (r: Result<FramebufferInfo, VgaError>)
    ensures
        r == display.spec_current(),
        r matches Ok(info) ==> info.is_valid_layout(),
{
    display.current_info()
}

/// Initialisation happens once: an initialised display refuses a second
/// initialisation with `AlreadyInitialized`, and keeps serving the layout
/// it recorded.
pub proof fn lemma_initialized_display_refuses_init(display: DisplayState, info: FramebufferInfo)
    requires
        display.configured() == Some(info),
    ensures
        display.spec_begin_init() == Err::<(), VgaError>(VgaError::AlreadyInitialized),
        display.spec_current() == Ok::<FramebufferInfo, VgaError>(info),
        spec_resolution(display) == Ok::<(u32, u32), VgaError>((info.width, info.height)),
{
}

/// Before initialisation succeeds, every drawing request is answered
/// `NotInitialized` and nothing is written.
pub proof fn lemma_uninitialized_display_draws_nothing(
    display: DisplayState,
    x: u32,
    y: u32,
    color: u32,
)
    requires
        display.configured() is None,
    ensures
        spec_display_draw_pixel(display, x, y, color) == Err::<PixelWrite, VgaError>(
            VgaError::NotInitialized,
        ),
        spec_display_clear_screen(display, color).count == 0,
        spec_display_clear_screen(display, color).outcome == Err::<(), VgaError>(
            VgaError::NotInitialized,
        ),
        spec_resolution(display) == Err::<(u32, u32), VgaError>(VgaError::NotInitialized),
        display.spec_current() == Err::<FramebufferInfo, VgaError>(VgaError::NotInitialized),
{
}

/// A display whose initialisation rolled back, or never started, accepts
/// a new initialisation.
pub proof fn lemma_uninitialized_display_accepts_init(display: DisplayState)
    requires
        display.phase() == STATE_UNINITIALIZED,
    ensures
        display.spec_begin_init() == Ok::<(), VgaError>(()),
        display.configured() is None,
{
}

/// An initialised display draws each visible pixel `(x, y)` of its layout at
/// `framebuffer_paddr + (y * stride + x) * 4`, rows stepped by the stride
/// (which may exceed the width), and refuses pixels outside the visible
/// area, the padding at the end of each row included.
pub proof fn lemma_display_draws_row_major(
    display: DisplayState,
    info: FramebufferInfo,
    x: u32,
    y: u32,
    color: u32,
)
    requires
        display.configured() == Some(info),
        info.is_valid_layout(),
    ensures
        x < info.width && y < info.height ==> spec_display_draw_pixel(display, x, y, color) == Ok::<
            PixelWrite,
            VgaError,
        >(
            PixelWrite {
                addr: (info.framebuffer_paddr + (y * info.stride + x) * 4) as usize,
                color,
            },
        ),
        x >= info.width || y >= info.height ==> spec_display_draw_pixel(display, x, y, color)
            == Err::<PixelWrite, VgaError>(VgaError::InvalidPixelPosition),
{
    if x < info.width && y < info.height {
        lemma_visible_pixel_drawn(info, x, y, color);
    } else {
        lemma_invisible_pixel_refused(info, x, y, color);
    }
}

/// Clearing an initialised display paints the colour asked for over its
/// whole framebuffer: `framebuffer_size / 4` stores of `color` from
/// `framebuffer_paddr` on, when the size is a whole number of pixels.
pub proof fn lemma_display_clear_paints_color(
    display: DisplayState,
    info: FramebufferInfo,
    color: u32,
)
    requires
        display.configured() == Some(info),
        info.is_valid_layout(),
        info.framebuffer_size % 4 == 0,
    ensures
        spec_display_clear_screen(display, color) == (ScreenFill {
            base: info.framebuffer_paddr,
            count: (info.framebuffer_size / 4) as usize,
            color,
            outcome: Ok(()),
        }),
{
    lemma_valid_layout_cleared(info, color);
}

/// Once initialised with the ramfb layout, the display reports 640x480 and
/// draws each visible pixel `(x, y)` at `framebuffer_paddr + (y * 640 + x) * 4`.
pub proof fn lemma_ramfb_display_draws_row_major(
    display: DisplayState,
    framebuffer_paddr: usize,
    x: u32,
    y: u32,
    color: u32,
)
    requires
        display.configured() == Some(ramfb_info(framebuffer_paddr)),
        framebuffer_paddr != 0,
        framebuffer_paddr + FRAMEBUFFER_SIZE <= usize::MAX,
        x < FRAMEBUFFER_WIDTH,
        y < FRAMEBUFFER_HEIGHT,
    ensures
        spec_resolution(display) == Ok::<(u32, u32), VgaError>(
            (FRAMEBUFFER_WIDTH, FRAMEBUFFER_HEIGHT),
        ),
        spec_display_draw_pixel(display, x, y, color) == Ok::<PixelWrite, VgaError>(
            PixelWrite { addr: (framebuffer_paddr + (y * 640 + x) * 4) as usize, color },
        ),
{
    lemma_ramfb_layout_valid(framebuffer_paddr, 0);
    lemma_visible_pixel_drawn(ramfb_info(framebuffer_paddr), x, y, color);
}

/// A successful initialisation gives the black 640x480 display: the
/// display is initialised with the ramfb layout at the probe's address,
/// the fill sets every 32-bit word of the framebuffer to black, a second
/// initialisation is refused, and every visible pixel is drawn row-major.
pub proof fn lemma_init_success(
    probe: RamfbProbe,
    reply: Result<Seq<u8>, VgaError>,
    next: RamfbProbe,
    fill: ScreenFill,
    after: DisplayState,
    x: u32,
    y: u32,
    color: u32,
)
    requires
        spec_continue_init(probe, reply, next, InitAction::Finish(fill), after),
        fill.outcome is Ok,
    ensures
        after.spec_current() == Ok::<FramebufferInfo, VgaError>(
            ramfb_info(probe.framebuffer_paddr),
        ),
        spec_resolution(after) == Ok::<(u32, u32), VgaError>(
            (FRAMEBUFFER_WIDTH, FRAMEBUFFER_HEIGHT),
        ),
        fill == (ScreenFill {
            base: probe.framebuffer_paddr,
            count: FRAMEBUFFER_PIXELS,
            color: 0,
            outcome: Ok(()),
        }),
        fill.count * 4 == FRAMEBUFFER_SIZE,
        after.spec_begin_init() == Err::<(), VgaError>(VgaError::AlreadyInitialized),
        x < FRAMEBUFFER_WIDTH && y < FRAMEBUFFER_HEIGHT ==> spec_display_draw_pixel(
            after,
            x,
            y,
            color,
        ) == Ok::<PixelWrite, VgaError>(
            PixelWrite { addr: (probe.framebuffer_paddr + (y * 640 + x) * 4) as usize, color },
        ),
{
    let paddr = probe.framebuffer_paddr;
    lemma_ramfb_layout_valid(paddr, 0);
    assert(probe.spec_finish_result(reply) == Ok::<FramebufferInfo, VgaError>(ramfb_info(paddr)));
    if x < FRAMEBUFFER_WIDTH && y < FRAMEBUFFER_HEIGHT {
        lemma_visible_pixel_drawn(ramfb_info(paddr), x, y, color);
    }
}

/// A failed initialisation writes nothing and leaves the display
/// uninitialised: drawing is answered `NotInitialized` and a new
/// initialisation is accepted. The error is the failed transfer's own,
/// `DeviceNotReady` (no fw_cfg device or no ramfb entry), `MmioFault` (no
/// DMA), or `InvalidFramebuffer` when the framebuffer address is zero or the
/// framebuffer would end past the address space.
pub proof fn lemma_init_failure(
    probe: RamfbProbe,
    reply: Result<Seq<u8>, VgaError>,
    next: RamfbProbe,
    fill: ScreenFill,
    after: DisplayState,
)
    requires
        spec_continue_init(probe, reply, next, InitAction::Finish(fill), after),
        fill.outcome is Err,
    ensures
        fill.count == 0,
        after.phase() == STATE_UNINITIALIZED,
        after.configured() is None,
        after.spec_current() == Err::<FramebufferInfo, VgaError>(VgaError::NotInitialized),
        spec_resolution(after) == Err::<(u32, u32), VgaError>(VgaError::NotInitialized),
        after.spec_begin_init() == Ok::<(), VgaError>(()),
        ({
            let e = fill.outcome->Err_0;
            ||| e == VgaError::DeviceNotReady
            ||| e == VgaError::MmioFault
            ||| reply == Err::<Seq<u8>, VgaError>(e)
            ||| e == VgaError::InvalidFramebuffer && (probe.framebuffer_paddr == 0
                || probe.framebuffer_paddr + FRAMEBUFFER_SIZE > usize::MAX)
        }),
{
    let paddr = probe.framebuffer_paddr;
    lemma_ramfb_layout_valid(paddr, 0);
}

} // verus!
