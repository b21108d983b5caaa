use vstd::prelude::*;
use crate::borders::Borders;
use crate::display_controller::{
    border_element, rect_border_covers, sprite_cell, DisplayController, DisplayControllerError,
};
use crate::element::default_element;
use crate::element::Element;
use crate::game_state::{GameState, InputEvent};
use crate::point::Point;

verus! {

/// What the frame loop does after an input event has been taken in.
#[derive(Clone, Copy, Debug, PartialEq, Eq, Structural)]
pub enum FrameAction {
    /// Run the frame's logic, then draw and flush it.
    Continue,
    /// Close the display and leave the loop.
    Exit,
}

/// The game: the display, the run state and the play-area border.
///
/// One frame is: `reset`, read at most one key, `process_event`, the
/// frame's own logic, then `finish_frame` and a flush of what it returns.
pub struct App {
    pub display_controller: DisplayController,
    pub game_state: GameState,
    pub borders: Borders,
}

impl App {
    /// The display is well formed, and the border is the outline of the
    /// play area, anchored at its origin.
    pub open spec fn wf(&self) -> bool {
        let dims = self.display_controller.dimensions_view();
        &&& self.display_controller.wf()
        &&& self.borders.drawable.layout.wf()
        &&& self.borders.drawable.location == (Point { width: 0, height: 0 })
        &&& self.borders.drawable.layout.dimensions == dims
        &&& forall|x: int, y: int|
            0 <= x < dims.width && 0 <= y < dims.height ==> #[trigger] self.borders.drawable.layout.cell(x, y) == if x
                == 0 || y == 0 || x == dims.width - 1 || y == dims.height - 1 {
                Some(border_element())
            } else {
                None
            }
    }

    /// A stopped game on a screen of `columns` by `rows` cells, with a play
    /// area of size `dimensions`; fails as `DisplayController::new` does.
    pub fn new(dimensions: &Point, columns: u16, rows: u16) -> (r: Result<App, DisplayControllerError>)
        requires
            dimensions.width >= 0,
            dimensions.height >= 0,
        ensures
            r == Err::<App, DisplayControllerError>(DisplayControllerError::DisplayTooSmallForDimensions) <==> (
            dimensions.width > columns || dimensions.height > rows),
            r == Err::<App, DisplayControllerError>(DisplayControllerError::PositionOutOfRange) <==> (dimensions.width
                <= columns && dimensions.height <= rows && (dimensions.width == 0) != (dimensions.height == 0)),
            r is Err ==> r == Err::<App, DisplayControllerError>(DisplayControllerError::DisplayTooSmallForDimensions)
                || r == Err::<App, DisplayControllerError>(DisplayControllerError::PositionOutOfRange),
            r is Ok ==> {
                let app = r->Ok_0;
                let c = app.display_controller;
                &&& app.wf()
                &&& c.dimensions_view() == *dimensions
                &&& c.screen_view() == Point { width: columns as i64, height: rows as i64 }
                &&& c.offset_view() == Point {
                    width: ((columns - dimensions.width) / 2) as i64,
                    height: ((rows - dimensions.height) / 2) as i64,
                }
                &&& c.default_view() == default_element()
                &&& c.buffer().len() == columns * rows
                &&& forall|x: int, y: int|
                    #![trigger c.buffer_cell(x, y)]
                    c.on_screen(x, y) ==> c.buffer_cell(x, y) == if rect_border_covers(
                        Point { width: 0, height: 0 },
                        *dimensions,
                        x - c.offset_view().width,
                        y - c.offset_view().height,
                    ) {
                        Some(border_element())
                    } else {
                        None
                    }
                &&& app.borders.drawable.layout.dimensions == *dimensions
                &&& !app.game_state.running
                &&& app.game_state.keyboard_event is None
            },
    {
        let display_controller = match DisplayController::new(dimensions, columns, rows) {
            Ok(c) => c,
            Err(e) => return Err(e),
        };
        Ok(App { display_controller, game_state: GameState::new(), borders: Borders::new(dimensions) })
    }

    /// Starts a frame: forgets the last key and empties the buffer.
    pub fn reset(&mut self) -> (r: Result<(), DisplayControllerError>)
        requires
            old(self).wf(),
        ensures
            r is Ok,
            final(self).wf(),
            final(self).display_controller.same_frame(&old(self).display_controller),
            final(self).display_controller.is_clear(),
            forall|x: int, y: int|
                #![trigger final(self).display_controller.buffer_cell(x, y)]
                old(self).display_controller.on_screen(x, y) ==> final(self).display_controller.buffer_cell(x, y) is None,
            final(self).game_state.keyboard_event is None,
            final(self).game_state.running == old(self).game_state.running,
            final(self).borders == old(self).borders,
    {
        self.game_state.keyboard_event = None;
        self.display_controller.reset();
        Ok(())
    }

    /// Enters the running state.
    pub fn start(&mut self)
        ensures
            final(self).game_state.running,
            final(self).game_state.keyboard_event == old(self).game_state.keyboard_event,
            final(self).display_controller == old(self).display_controller,
            final(self).borders == old(self).borders,
    {
        self.game_state.start_game();
    }

    /// Takes in the key read this frame, if any: `Esc` stops the game and
    /// asks the loop to exit; any other outcome is recorded and the frame
    /// goes on.
    pub fn process_event(&mut self, event: Option<InputEvent>) -> (r: FrameAction)
        ensures
            final(self).display_controller == old(self).display_controller,
            final(self).borders == old(self).borders,
            event == Some(InputEvent::Esc) ==> r == FrameAction::Exit && !final(self).game_state.running
                && final(self).game_state.keyboard_event == old(self).game_state.keyboard_event,
            event != Some(InputEvent::Esc) ==> r == FrameAction::Continue && final(self).game_state.running == old(
                self,
            ).game_state.running && final(self).game_state.keyboard_event == event,
    {
        match event {
            Some(InputEvent::Esc) => {
                self.game_state.stop_game();
                FrameAction::Exit
            },
            _ => {
                self.game_state.keyboard_event = event;
                FrameAction::Continue
            },
        }
    }

    /// Ends a frame: draws the border over the buffer and returns what the
    /// screen is to show.
    pub fn finish_frame(&mut self) -> (r: Vec<Element>)
        requires
            old(self).wf(),
        ensures
            final(self).wf(),
            final(self).display_controller.same_frame(&old(self).display_controller),
            final(self).game_state == old(self).game_state,
            final(self).borders == old(self).borders,
            r@ == final(self).display_controller.frame(),
            forall|x: int, y: int|
                #![trigger final(self).display_controller.buffer_cell(x, y)]
                old(self).display_controller.on_screen(x, y) && old(self).display_controller.in_play_area(
                    x - old(self).display_controller.offset_view().width,
                    y - old(self).display_controller.offset_view().height,
                ) && (x - old(self).display_controller.offset_view().width == 0 || y - old(
                    self,
                ).display_controller.offset_view().height == 0 || x - old(self).display_controller.offset_view().width
                    == old(self).display_controller.dimensions_view().width - 1 || y - old(
                    self,
                ).display_controller.offset_view().height == old(self).display_controller.dimensions_view().height
                    - 1) ==> final(self).display_controller.buffer_cell(x, y) == Some(border_element()),
            forall|x: int, y: int|
                #![trigger final(self).display_controller.buffer_cell(x, y)]
                old(self).display_controller.on_screen(x, y) ==> final(self).display_controller.buffer_cell(x, y) == {
                    let c = old(self).display_controller;
                    let lx = x - c.offset_view().width;
                    let ly = y - c.offset_view().height;
                    if c.in_play_area(lx, ly) && sprite_cell(old(self).borders.drawable, lx, ly) is Some {
                        sprite_cell(old(self).borders.drawable, lx, ly)
                    } else {
                        c.buffer_cell(x, y)
                    }
                },
    {
        self.display_controller.draw_drawable(&self.borders);
        self.display_controller.print_display()
    }

    /// Stops the game.
    pub fn shut_down(&mut self) -> (r: Result<(), DisplayControllerError>)
        ensures
            r is Ok,
            !final(self).game_state.running,
            final(self).game_state.keyboard_event == old(self).game_state.keyboard_event,
            final(self).display_controller == old(self).display_controller,
            final(self).borders == old(self).borders,
    {
        self.game_state.stop_game();
        Ok(())
    }
}

} // verus!
