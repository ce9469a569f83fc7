//! Command encoding for the Grove RGB-backlight character LCD: an AIP31068L
//! display controller and a PCA9633 LED driver on one I2C bus.
//!
//! Nothing here touches the bus. Every operation updates the settings it is
//! about and hands back the steps to carry out, in order; the caller performs
//! them and stops at the first write that fails. A setting changes only with
//! the operation whose command carries it, which is why the power-up comes in
//! stages: a stage is asked for when the one before it went through.

use vstd::prelude::*;

verus! {

/// Bus address of the display controller.
pub const LCD_ADDRESS: u8 = 0x3e;

/// Bus address of the backlight driver.
pub const RGB_ADDRESS: u8 = 0x62;

/// Control byte that announces a command to the display controller.
pub const COMMAND_PREFIX: u8 = 0x80;

/// Control byte that announces character data to the display controller.
pub const DATA_PREFIX: u8 = 0x40;

pub const LCD_CLEAR_DISPLAY: u8 = 0x01;

pub const LCD_RETURN_HOME: u8 = 0x02;

pub const LCD_ENTRY_MODESET: u8 = 0x04;

pub const LCD_DISPLAY_CONTROL: u8 = 0x08;

pub const LCD_CURSOR_SHIFT: u8 = 0x10;

pub const LCD_FUNCTION_SET: u8 = 0x20;

pub const LCD_SET_CGRAM_ADDR: u8 = 0x40;

pub const LCD_ENTRY_RIGHT: u8 = 0x00;

pub const LCD_ENTRY_LEFT: u8 = 0x02;

pub const LCD_ENTRY_SHIFT_INCREMENT: u8 = 0x01;

pub const LCD_ENTRY_SHIFT_DECREMENT: u8 = 0x00;

pub const LCD_DISPLAY_MOVE: u8 = 0x08;

pub const LCD_MOVE_RIGHT: u8 = 0x04;

pub const LCD_MOVE_LEFT: u8 = 0x00;

pub const LCD_8BITMODE: u8 = 0x10;

pub const LCD_2LINE: u8 = 0x08;

pub const LCD_5X8_DOTS: u8 = 0x00;

pub const LCD_DISPLAY_ON: u8 = 0x04;

pub const LCD_CURSOR_ON: u8 = 0x02;

pub const LCD_BLINK_ON: u8 = 0x01;

pub const REG_MODE1: u8 = 0x00;

pub const REG_MODE2: u8 = 0x01;

pub const REG_BLUE: u8 = 0x02;

pub const REG_GREEN: u8 = 0x03;

pub const REG_RED: u8 = 0x04;

pub const REG_GROUP_PWM: u8 = 0x06;

pub const REG_GROUP_FREQ: u8 = 0x07;

pub const REG_OUTPUT: u8 = 0x08;

/// A backlight colour.
#[derive(Clone, Copy, Debug, PartialEq, Eq, Structural)]
pub enum Color {
    White,
    Red,
    Green,
    Blue,
    RGB(u8, u8, u8),
}

/// One step on the bus.
#[derive(Clone, Copy, Debug, PartialEq, Eq)]
pub enum BusStep {
    /// Wait for this many microseconds.
    Delay(u32),
    /// Write two bytes to the device at `address`.
    Write { address: u8, first: u8, second: u8 },
    /// Write a control byte and the eight rows of a character to the device
    /// at `address`.
    WriteRows { address: u8, control: u8, rows: [u8; 8] },
}

/// A command for the display controller.
pub open spec fn command_step(command: u8) -> BusStep {
    BusStep::Write { address: LCD_ADDRESS, first: COMMAND_PREFIX, second: command }
}

/// A register write for the backlight driver.
pub open spec fn register_step(register: u8, value: u8) -> BusStep {
    BusStep::Write { address: RGB_ADDRESS, first: register, second: value }
}

/// The red, green and blue intensities of a colour.
pub open spec fn intensities(color: Color) -> (u8, u8, u8) {
    match color {
        Color::White => (255, 255, 255),
        Color::Red => (255, 0, 0),
        Color::Green => (0, 255, 0),
        Color::Blue => (0, 0, 255),
        Color::RGB(red, green, blue) => (red, green, blue),
    }
}

/// The three register writes that set the backlight to a colour.
pub open spec fn color_steps(color: Color) -> Seq<BusStep> {
    seq![
        register_step(REG_RED, intensities(color).0),
        register_step(REG_GREEN, intensities(color).1),
        register_step(REG_BLUE, intensities(color).2),
    ]
}

/// The stages of the power-up, in the order in which they are carried out.
#[derive(Clone, Copy, Debug, PartialEq, Eq, Structural)]
pub enum InitStage {
    /// The function-set command, repeated as the controller asks.
    FunctionSet,
    /// The display is switched on.
    DisplayOn,
    /// The display is cleared.
    Clear,
    /// The entry mode is set to text that flows from left to right.
    EntryMode,
    /// The backlight driver is set up, and the backlight turns green.
    Backlight,
}

/// The stage that follows `stage`, if any.
pub open spec fn stage_after(stage: InitStage) -> Option<InitStage> {
    match stage {
        InitStage::FunctionSet => Some(InitStage::DisplayOn),
        InitStage::DisplayOn => Some(InitStage::Clear),
        InitStage::Clear => Some(InitStage::EntryMode),
        InitStage::EntryMode => Some(InitStage::Backlight),
        InitStage::Backlight => None,
    }
}

impl InitStage {
    /// The stage that the power-up begins with.
    pub fn first() -> (stage: Self)
        ensures
            stage == InitStage::FunctionSet,
    {
        InitStage::FunctionSet
    }

    /// The stage to carry out once this one went through, or `None` when the
    /// power-up is complete.
    pub fn next(self) -> (next: Option<Self>)
        ensures
            next == stage_after(self),
    {
        match self {
            InitStage::FunctionSet => Some(InitStage::DisplayOn),
            InitStage::DisplayOn => Some(InitStage::Clear),
            InitStage::Clear => Some(InitStage::EntryMode),
            InitStage::EntryMode => Some(InitStage::Backlight),
            InitStage::Backlight => None,
        }
    }
}

/// The function-set stage: the command goes out four times, with the waits
/// that the controller needs after power rises.
pub open spec fn function_set_steps(function: u8) -> Seq<BusStep> {
    seq![
        BusStep::Delay(50000),
        command_step(LCD_FUNCTION_SET | function),
        BusStep::Delay(4500),
        command_step(LCD_FUNCTION_SET | function),
        BusStep::Delay(150),
        command_step(LCD_FUNCTION_SET | function),
        command_step(LCD_FUNCTION_SET | function),
    ]
}

/// The backlight stage: mode and output registers of the driver, then green.
pub open spec fn backlight_steps() -> Seq<BusStep> {
    seq![
        register_step(REG_MODE1, 0),
        register_step(REG_OUTPUT, 0xff),
        register_step(REG_MODE2, 0x20),
    ] + color_steps(Color::Green)
}

/// The steps of one stage of the power-up, for the settings as they stand
/// when the stage's commands are sent.
pub open spec fn stage_steps(stage: InitStage, function: u8, control: u8, mode: u8) -> Seq<
    BusStep,
> {
    match stage {
        InitStage::FunctionSet => function_set_steps(function),
        InitStage::DisplayOn => seq![command_step(LCD_DISPLAY_CONTROL | control)],
        InitStage::Clear => seq![command_step(LCD_CLEAR_DISPLAY), BusStep::Delay(2000)],
        InitStage::EntryMode => seq![command_step(LCD_ENTRY_MODESET | mode)],
        InitStage::Backlight => backlight_steps(),
    }
}

/// The display-control flags after a stage of the power-up: only the stage
/// that switches the display on changes them.
pub open spec fn control_after(stage: InitStage, control: u8) -> u8 {
    if stage is DisplayOn {
        control | LCD_DISPLAY_ON
    } else {
        control
    }
}

/// The entry-mode flags after a stage of the power-up: only the stage that
/// sets the entry mode changes them.
pub open spec fn mode_after(stage: InitStage, mode: u8) -> u8 {
    if stage is EntryMode {
        mode | (LCD_ENTRY_LEFT | LCD_ENTRY_SHIFT_DECREMENT)
    } else {
        mode
    }
}

/// The whole power-up sequence for settings `function`, `control` and `mode`,
/// each as it stands when its command is sent.
pub open spec fn init_steps(function: u8, control: u8, mode: u8) -> Seq<BusStep> {
    seq![
        BusStep::Delay(50000),
        command_step(LCD_FUNCTION_SET | function),
        BusStep::Delay(4500),
        command_step(LCD_FUNCTION_SET | function),
        BusStep::Delay(150),
        command_step(LCD_FUNCTION_SET | function),
        command_step(LCD_FUNCTION_SET | function),
        command_step(LCD_DISPLAY_CONTROL | control),
        command_step(LCD_CLEAR_DISPLAY),
        BusStep::Delay(2000),
        command_step(LCD_ENTRY_MODESET | mode),
        register_step(REG_MODE1, 0),
        register_step(REG_OUTPUT, 0xff),
        register_step(REG_MODE2, 0x20),
    ] + color_steps(Color::Green)
}

/// The five stages, carried out in order, send the whole power-up sequence:
/// the display-control command with the display switched on, and the
/// entry-mode command with the text flowing from left to right.
pub proof fn lemma_stages_make_the_power_up(function: u8, control: u8, mode: u8)
    ensures
        stage_steps(InitStage::FunctionSet, function, control, mode) + stage_steps(
            InitStage::DisplayOn,
            function,
            control_after(InitStage::DisplayOn, control),
            mode,
        ) + stage_steps(
            InitStage::Clear,
            function,
            control_after(InitStage::DisplayOn, control),
            mode,
        ) + stage_steps(
            InitStage::EntryMode,
            function,
            control_after(InitStage::DisplayOn, control),
            mode_after(InitStage::EntryMode, mode),
        ) + stage_steps(
            InitStage::Backlight,
            function,
            control_after(InitStage::DisplayOn, control),
            mode_after(InitStage::EntryMode, mode),
        ) =~= init_steps(
            function,
            control_after(InitStage::DisplayOn, control),
            mode_after(InitStage::EntryMode, mode),
        ),
{
}

fn listed<const N: usize>(steps: [BusStep; N]) -> (list: Vec<BusStep>)
    ensures
        list@ == steps@,
{
    let mut list: Vec<BusStep> = Vec::new();
    let mut i: usize = 0;
    while i < N
        invariant
            i <= N,
            steps@.len() == N,
            list@ == steps@.take(i as int),
        decreases N - i,
    {
        list.push(steps[i]);
        assert(steps@.take(i + 1) =~= steps@.take(i as int).push(steps@[i as int]));
        i = i + 1;
    }
    assert(steps@.take(N as int) =~= steps@);
    list
}

fn send_command(command: u8) -> (step: BusStep)
    ensures
        step == command_step(command),
{
    BusStep::Write { address: LCD_ADDRESS, first: COMMAND_PREFIX, second: command }
}

fn set_register(register: u8, value: u8) -> (step: BusStep)
    ensures
        step == register_step(register, value),
{
    BusStep::Write { address: RGB_ADDRESS, first: register, second: value }
}

/// The display settings that the controller's commands carry along.
pub struct RgbLCD {
    display_function: u8,
    display_control: u8,
    display_mode: u8,
}

impl RgbLCD {
    /// The function-set flags: number of lines and font.
    pub closed spec fn function_flags(&self) -> u8 {
        self.display_function
    }

    /// The display-control flags: display, cursor and blinking.
    pub closed spec fn control_flags(&self) -> u8 {
        self.display_control
    }

    /// The entry-mode flags: text direction and autoscroll.
    pub closed spec fn mode_flags(&self) -> u8 {
        self.display_mode
    }

    /// Settings for two lines of 5x8 characters with the display on.
    pub fn new() -> (lcd: Self)
        ensures
            lcd.function_flags() == LCD_2LINE | LCD_5X8_DOTS,
            lcd.control_flags() == LCD_DISPLAY_ON,
            lcd.mode_flags() == LCD_8BITMODE,
    {
        RgbLCD {
            display_function: LCD_2LINE | LCD_5X8_DOTS,
            display_control: LCD_DISPLAY_ON,
            display_mode: LCD_8BITMODE,
        }
    }

    /// The function-set flags as they stand.
    pub fn display_function(&self) -> (flags: u8)
        ensures
            flags == self.function_flags(),
    {
        self.display_function
    }

    /// The display-control flags as they stand.
    pub fn display_control(&self) -> (flags: u8)
        ensures
            flags == self.control_flags(),
    {
        self.display_control
    }

    /// The entry-mode flags as they stand.
    pub fn display_mode(&self) -> (flags: u8)
        ensures
            flags == self.mode_flags(),
    {
        self.display_mode
    }

    /// One stage of the power-up. The settings change with the stage that
    /// sends them and with no other: the display-control flags when the
    /// display is switched on, the entry-mode flags when the entry mode is
    /// set. Begin with `InitStage::first()`, carry the steps out, and ask for
    /// the stage that `InitStage::next` names only when every write of this
    /// one went through.
    pub fn init(&mut self, stage: InitStage) -> (steps: Vec<BusStep>)
        ensures
            final(self).function_flags() == old(self).function_flags(),
            final(self).control_flags() == control_after(stage, old(self).control_flags()),
            final(self).mode_flags() == mode_after(stage, old(self).mode_flags()),
            steps@ == stage_steps(
                stage,
                final(self).function_flags(),
                final(self).control_flags(),
                final(self).mode_flags(),
            ),
    {
        match stage {
            InitStage::FunctionSet => listed(self.init_function_set()),
            InitStage::DisplayOn => listed(self.switch_display_on()),
            InitStage::Clear => listed(self.clear_display()),
            InitStage::EntryMode => listed(self.init_entry_mode()),
            InitStage::Backlight => listed(self.init_backlight()),
        }
    }

    /// First stage of the power-up: the function-set command, four times
    /// over. No setting changes.
    pub fn init_function_set(&self) -> (steps: [BusStep; 7])
        ensures
            steps@ == function_set_steps(self.function_flags()),
    {
        let function_set = send_command(LCD_FUNCTION_SET | self.display_function);
        [
            BusStep::Delay(50000),
            function_set,
            BusStep::Delay(4500),
            function_set,
            BusStep::Delay(150),
            function_set,
            function_set,
        ]
    }

    /// Fourth stage of the power-up: text flows from left to right, without
    /// autoscroll unless that was set before.
    pub fn init_entry_mode(&mut self) -> (steps: [BusStep; 1])
        ensures
            final(self).mode_flags() == old(self).mode_flags() | (LCD_ENTRY_LEFT
                | LCD_ENTRY_SHIFT_DECREMENT),
            final(self).function_flags() == old(self).function_flags(),
            final(self).control_flags() == old(self).control_flags(),
            steps@ == seq![command_step(LCD_ENTRY_MODESET | final(self).mode_flags())],
    {
        self.display_mode = self.display_mode | (LCD_ENTRY_LEFT | LCD_ENTRY_SHIFT_DECREMENT);
        [send_command(LCD_ENTRY_MODESET | self.display_mode)]
    }

    /// Last stage of the power-up: the backlight driver's mode and output
    /// registers, then a green backlight. No setting changes.
    pub fn init_backlight(&self) -> (steps: [BusStep; 6])
        ensures
            steps@ == backlight_steps(),
    {
        let steps = [
            set_register(REG_MODE1, 0),
            set_register(REG_OUTPUT, 0xff),
            set_register(REG_MODE2, 0x20),
            set_register(REG_RED, 0),
            set_register(REG_GREEN, 255),
            set_register(REG_BLUE, 0),
        ];
        assert(steps@ =~= backlight_steps());
        steps
    }

    /// Clears the display and puts the cursor at the origin; the controller
    /// needs two milliseconds for it.
    pub fn clear_display(&self) -> (steps: [BusStep; 2])
        ensures
            steps@ == seq![command_step(LCD_CLEAR_DISPLAY), BusStep::Delay(2000)],
    {
        [send_command(LCD_CLEAR_DISPLAY), BusStep::Delay(2000)]
    }

    /// Puts the cursor at the origin; the controller needs two milliseconds
    /// for it.
    pub fn home(&self) -> (steps: [BusStep; 2])
        ensures
            steps@ == seq![command_step(LCD_RETURN_HOME), BusStep::Delay(2000)],
    {
        [send_command(LCD_RETURN_HOME), BusStep::Delay(2000)]
    }

    pub fn switch_display_off(&mut self) -> (steps: [BusStep; 1])
        ensures
            final(self).control_flags() == old(self).control_flags() & !LCD_DISPLAY_ON,
            final(self).function_flags() == old(self).function_flags(),
            final(self).mode_flags() == old(self).mode_flags(),
            steps@ == seq![command_step(LCD_DISPLAY_CONTROL | final(self).control_flags())],
    {
        self.display_control = self.display_control & !LCD_DISPLAY_ON;
        [send_command(LCD_DISPLAY_CONTROL | self.display_control)]
    }

    pub fn switch_display_on(&mut self) -> (steps: [BusStep; 1])
        ensures
            final(self).control_flags() == old(self).control_flags() | LCD_DISPLAY_ON,
            final(self).function_flags() == old(self).function_flags(),
            final(self).mode_flags() == old(self).mode_flags(),
            steps@ == seq![command_step(LCD_DISPLAY_CONTROL | final(self).control_flags())],
    {
        self.display_control = self.display_control | LCD_DISPLAY_ON;
        [send_command(LCD_DISPLAY_CONTROL | self.display_control)]
    }

    pub fn switch_cursor_blinking_off(&mut self) -> (steps: [BusStep; 1])
        ensures
            final(self).control_flags() == old(self).control_flags() & !LCD_BLINK_ON,
            final(self).function_flags() == old(self).function_flags(),
            final(self).mode_flags() == old(self).mode_flags(),
            steps@ == seq![command_step(LCD_DISPLAY_CONTROL | final(self).control_flags())],
    {
        self.display_control = self.display_control & !LCD_BLINK_ON;
        [send_command(LCD_DISPLAY_CONTROL | self.display_control)]
    }

    pub fn switch_cursor_blinking_on(&mut self) -> (steps: [BusStep; 1])
        ensures
            final(self).control_flags() == old(self).control_flags() | LCD_BLINK_ON,
            final(self).function_flags() == old(self).function_flags(),
            final(self).mode_flags() == old(self).mode_flags(),
            steps@ == seq![command_step(LCD_DISPLAY_CONTROL | final(self).control_flags())],
    {
        self.display_control = self.display_control | LCD_BLINK_ON;
        [send_command(LCD_DISPLAY_CONTROL | self.display_control)]
    }

    pub fn hide_cursor(&mut self) -> (steps: [BusStep; 1])
        ensures
            final(self).control_flags() == old(self).control_flags() & !LCD_CURSOR_ON,
            final(self).function_flags() == old(self).function_flags(),
            final(self).mode_flags() == old(self).mode_flags(),
            steps@ == seq![command_step(LCD_DISPLAY_CONTROL | final(self).control_flags())],
    {
        self.display_control = self.display_control & !LCD_CURSOR_ON;
        [send_command(LCD_DISPLAY_CONTROL | self.display_control)]
    }

    pub fn show_cursor(&mut self) -> (steps: [BusStep; 1])
        ensures
            final(self).control_flags() == old(self).control_flags() | LCD_CURSOR_ON,
            final(self).function_flags() == old(self).function_flags(),
            final(self).mode_flags() == old(self).mode_flags(),
            steps@ == seq![command_step(LCD_DISPLAY_CONTROL | final(self).control_flags())],
    {
        self.display_control = self.display_control | LCD_CURSOR_ON;
        [send_command(LCD_DISPLAY_CONTROL | self.display_control)]
    }

    /// Scrolls the display one place to the left; the display memory and the
    /// settings stay as they are.
    pub fn scroll_display_left(&mut self) -> (steps: [BusStep; 1])
        ensures
            *final(self) == *old(self),
            steps@ == seq![command_step(LCD_CURSOR_SHIFT | LCD_DISPLAY_MOVE | LCD_MOVE_LEFT)],
    {
        [send_command(LCD_CURSOR_SHIFT | LCD_DISPLAY_MOVE | LCD_MOVE_LEFT)]
    }

    /// Scrolls the display one place to the right; the display memory and the
    /// settings stay as they are.
    pub fn scroll_display_right(&mut self) -> (steps: [BusStep; 1])
        ensures
            *final(self) == *old(self),
            steps@ == seq![command_step(LCD_CURSOR_SHIFT | LCD_DISPLAY_MOVE | LCD_MOVE_RIGHT)],
    {
        [send_command(LCD_CURSOR_SHIFT | LCD_DISPLAY_MOVE | LCD_MOVE_RIGHT)]
    }

    /// Text flows from left to right.
    pub fn set_left_to_right_text_flow(&mut self) -> (steps: [BusStep; 1])
        ensures
            final(self).mode_flags() == old(self).mode_flags() | LCD_ENTRY_LEFT,
            final(self).function_flags() == old(self).function_flags(),
            final(self).control_flags() == old(self).control_flags(),
            steps@ == seq![command_step(LCD_ENTRY_MODESET | final(self).mode_flags())],
    {
        self.display_mode = self.display_mode | LCD_ENTRY_LEFT;
        [send_command(LCD_ENTRY_MODESET | self.display_mode)]
    }

    /// Sends the entry mode as it stands. The flag that this operation masks
    /// out is `LCD_ENTRY_RIGHT`, which has no bit set, so the text direction
    /// that was set before is kept.
    pub fn set_right_to_left_text_flow(&mut self) -> (steps: [BusStep; 1])
        ensures
            *final(self) == *old(self),
            steps@ == seq![command_step(LCD_ENTRY_MODESET | old(self).mode_flags())],
    {
        let mode: u8 = self.display_mode;
        assert(mode & !LCD_ENTRY_RIGHT == mode) by (bit_vector);
        self.display_mode = mode & !LCD_ENTRY_RIGHT;
        [send_command(LCD_ENTRY_MODESET | self.display_mode)]
    }

    /// Text is right-justified from the cursor.
    pub fn switch_autoscrolling_on(&mut self) -> (steps: [BusStep; 1])
        ensures
            final(self).mode_flags() == old(self).mode_flags() | LCD_ENTRY_SHIFT_INCREMENT,
            final(self).function_flags() == old(self).function_flags(),
            final(self).control_flags() == old(self).control_flags(),
            steps@ == seq![command_step(LCD_ENTRY_MODESET | final(self).mode_flags())],
    {
        self.display_mode = self.display_mode | LCD_ENTRY_SHIFT_INCREMENT;
        [send_command(LCD_ENTRY_MODESET | self.display_mode)]
    }

    /// Text is left-justified from the cursor.
    pub fn switch_autoscrolling_off(&mut self) -> (steps: [BusStep; 1])
        ensures
            final(self).mode_flags() == old(self).mode_flags() & !LCD_ENTRY_SHIFT_INCREMENT,
            final(self).function_flags() == old(self).function_flags(),
            final(self).control_flags() == old(self).control_flags(),
            steps@ == seq![command_step(LCD_ENTRY_MODESET | final(self).mode_flags())],
    {
        self.display_mode = self.display_mode & !LCD_ENTRY_SHIFT_INCREMENT;
        [send_command(LCD_ENTRY_MODESET | self.display_mode)]
    }

    /// Stores a custom character: the address command for `location`, then
    /// the eight rows of `charmap` as data. Locations up to 8 are refused by
    /// this driver and must not be passed.
    pub fn create_custom_characters(&self, location: u8, charmap: [u8; 8]) -> (steps: [BusStep;
        2])
        requires
            location > 8,
        ensures
            steps@ == seq![
                command_step(LCD_SET_CGRAM_ADDR | (location << 3)),
                BusStep::WriteRows { address: LCD_ADDRESS, control: DATA_PREFIX, rows: charmap },
            ],
    {
        [
            send_command(LCD_SET_CGRAM_ADDR | (location << 3)),
            BusStep::WriteRows { address: LCD_ADDRESS, control: DATA_PREFIX, rows: charmap },
        ]
    }

    /// Puts the cursor at column `col` of row `row`: position `0x80` plus the
    /// column plus `0x40` for each row, which has to fit in a byte.
    pub fn set_cursor(&self, col: u8, row: u8) -> (steps: [BusStep; 1])
        requires
            0x80 + col + row * 0x40 <= 0xff,
        ensures
            steps@ == seq![command_step((0x80 + col + row * 0x40) as u8)],
    {
        let pos: u8 = 0x80 + col + row * (0xc0 - 0x80);
        [send_command(pos)]
    }

    /// Writes one character at the cursor.
    pub fn write_byte(&self, value: u8) -> (steps: [BusStep; 1])
        ensures
            steps@ == seq![
                BusStep::Write { address: LCD_ADDRESS, first: DATA_PREFIX, second: value },
            ],
    {
        [BusStep::Write { address: LCD_ADDRESS, first: DATA_PREFIX, second: value }]
    }

    /// Lets the backlight blink once a second, half of the time on.
    pub fn switch_blink_backlight_on(&self) -> (steps: [BusStep; 2])
        ensures
            steps@ == seq![
                register_step(REG_GROUP_FREQ, 0x17),
                register_step(REG_GROUP_PWM, 0x7f),
            ],
    {
        [set_register(REG_GROUP_FREQ, 0x17), set_register(REG_GROUP_PWM, 0x7f)]
    }

    /// Stops the backlight from blinking.
    pub fn switch_blink_backlight_off(&self) -> (steps: [BusStep; 2])
        ensures
            steps@ == seq![
                register_step(REG_GROUP_FREQ, 0x00),
                register_step(REG_GROUP_PWM, 0xff),
            ],
    {
        [set_register(REG_GROUP_FREQ, 0x00), set_register(REG_GROUP_PWM, 0xff)]
    }

    /// Sets the backlight colour: red, then green, then blue.
    pub fn set_color(&self, color: Color) -> (steps: [BusStep; 3])
        ensures
            steps@ == color_steps(color),
    {
        let (red, green, blue): (u8, u8, u8) = match color {
            Color::White => (255, 255, 255),
            Color::Red => (255, 0, 0),
            Color::Green => (0, 255, 0),
            Color::Blue => (0, 0, 255),
            Color::RGB(red, green, blue) => (red, green, blue),
        };
        let steps = [
            set_register(REG_RED, red),
            set_register(REG_GREEN, green),
            set_register(REG_BLUE, blue),
        ];
        assert(steps@ =~= color_steps(color));
        steps
    }
}

} // verus!
