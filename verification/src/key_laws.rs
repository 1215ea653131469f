//! Laws of the key tables: window keys, key codes and legacy codes.
use vstd::prelude::*;

use crate::config_laws::{lemma_normalized_storable, lemma_plain_token};
use crate::hotkey::{is_modifier_token, lemma_modifier_literals, vk_of};
use crate::keybind::{legacy_token, normalized};
use crate::text::{decimal, has_prefix, lemma_decimal_parses};
use crate::ui::{ui_token, UiKey};

verus! {

proof fn lemma_vk_key_a()
    ensures
        vk_of("KeyA"@) == Some(65u32),
        normalized("KeyA"@) == Some("KeyA"@),
{
    reveal_strlit("KeyA");
    reveal_strlit("Key");
    reveal_strlit("Num");
    reveal_strlit("F");
    assert("KeyA"@.subrange(0, 3) =~= "Key"@);
    assert(!has_prefix("KeyA"@, "Num"@)) by { assert("KeyA"@.subrange(0, 3)[0] != "Num"@[0]); }
    assert(!has_prefix("KeyA"@, "F"@)) by { assert("KeyA"@.subrange(0, 1)[0] != "F"@[0]); }
    lemma_plain_token_normalized("KeyA"@);
}

proof fn lemma_vk_key_b()
    ensures
        vk_of("KeyB"@) == Some(66u32),
        normalized("KeyB"@) == Some("KeyB"@),
{
    reveal_strlit("KeyB");
    reveal_strlit("Key");
    reveal_strlit("Num");
    reveal_strlit("F");
    assert("KeyB"@.subrange(0, 3) =~= "Key"@);
    assert(!has_prefix("KeyB"@, "Num"@)) by { assert("KeyB"@.subrange(0, 3)[0] != "Num"@[0]); }
    assert(!has_prefix("KeyB"@, "F"@)) by { assert("KeyB"@.subrange(0, 1)[0] != "F"@[0]); }
    lemma_plain_token_normalized("KeyB"@);
}

proof fn lemma_vk_key_c()
    ensures
        vk_of("KeyC"@) == Some(67u32),
        normalized("KeyC"@) == Some("KeyC"@),
{
    reveal_strlit("KeyC");
    reveal_strlit("Key");
    reveal_strlit("Num");
    reveal_strlit("F");
    assert("KeyC"@.subrange(0, 3) =~= "Key"@);
    assert(!has_prefix("KeyC"@, "Num"@)) by { assert("KeyC"@.subrange(0, 3)[0] != "Num"@[0]); }
    assert(!has_prefix("KeyC"@, "F"@)) by { assert("KeyC"@.subrange(0, 1)[0] != "F"@[0]); }
    lemma_plain_token_normalized("KeyC"@);
}

proof fn lemma_vk_key_d()
    ensures
        vk_of("KeyD"@) == Some(68u32),
        normalized("KeyD"@) == Some("KeyD"@),
{
    reveal_strlit("KeyD");
    reveal_strlit("Key");
    reveal_strlit("Num");
    reveal_strlit("F");
    assert("KeyD"@.subrange(0, 3) =~= "Key"@);
    assert(!has_prefix("KeyD"@, "Num"@)) by { assert("KeyD"@.subrange(0, 3)[0] != "Num"@[0]); }
    assert(!has_prefix("KeyD"@, "F"@)) by { assert("KeyD"@.subrange(0, 1)[0] != "F"@[0]); }
    lemma_plain_token_normalized("KeyD"@);
}

proof fn lemma_vk_key_e()
    ensures
        vk_of("KeyE"@) == Some(69u32),
        normalized("KeyE"@) == Some("KeyE"@),
{
    reveal_strlit("KeyE");
    reveal_strlit("Key");
    reveal_strlit("Num");
    reveal_strlit("F");
    assert("KeyE"@.subrange(0, 3) =~= "Key"@);
    assert(!has_prefix("KeyE"@, "Num"@)) by { assert("KeyE"@.subrange(0, 3)[0] != "Num"@[0]); }
    assert(!has_prefix("KeyE"@, "F"@)) by { assert("KeyE"@.subrange(0, 1)[0] != "F"@[0]); }
    lemma_plain_token_normalized("KeyE"@);
}

proof fn lemma_vk_key_f()
    ensures
        vk_of("KeyF"@) == Some(70u32),
        normalized("KeyF"@) == Some("KeyF"@),
{
    reveal_strlit("KeyF");
    reveal_strlit("Key");
    reveal_strlit("Num");
    reveal_strlit("F");
    assert("KeyF"@.subrange(0, 3) =~= "Key"@);
    assert(!has_prefix("KeyF"@, "Num"@)) by { assert("KeyF"@.subrange(0, 3)[0] != "Num"@[0]); }
    assert(!has_prefix("KeyF"@, "F"@)) by { assert("KeyF"@.subrange(0, 1)[0] != "F"@[0]); }
    lemma_plain_token_normalized("KeyF"@);
}

proof fn lemma_vk_key_g()
    ensures
        vk_of("KeyG"@) == Some(71u32),
        normalized("KeyG"@) == Some("KeyG"@),
{
    reveal_strlit("KeyG");
    reveal_strlit("Key");
    reveal_strlit("Num");
    reveal_strlit("F");
    assert("KeyG"@.subrange(0, 3) =~= "Key"@);
    assert(!has_prefix("KeyG"@, "Num"@)) by { assert("KeyG"@.subrange(0, 3)[0] != "Num"@[0]); }
    assert(!has_prefix("KeyG"@, "F"@)) by { assert("KeyG"@.subrange(0, 1)[0] != "F"@[0]); }
    lemma_plain_token_normalized("KeyG"@);
}

proof fn lemma_vk_key_h()
    ensures
        vk_of("KeyH"@) == Some(72u32),
        normalized("KeyH"@) == Some("KeyH"@),
{
    reveal_strlit("KeyH");
    reveal_strlit("Key");
    reveal_strlit("Num");
    reveal_strlit("F");
    assert("KeyH"@.subrange(0, 3) =~= "Key"@);
    assert(!has_prefix("KeyH"@, "Num"@)) by { assert("KeyH"@.subrange(0, 3)[0] != "Num"@[0]); }
    assert(!has_prefix("KeyH"@, "F"@)) by { assert("KeyH"@.subrange(0, 1)[0] != "F"@[0]); }
    lemma_plain_token_normalized("KeyH"@);
}

proof fn lemma_vk_key_i()
    ensures
        vk_of("KeyI"@) == Some(73u32),
        normalized("KeyI"@) == Some("KeyI"@),
{
    reveal_strlit("KeyI");
    reveal_strlit("Key");
    reveal_strlit("Num");
    reveal_strlit("F");
    assert("KeyI"@.subrange(0, 3) =~= "Key"@);
    assert(!has_prefix("KeyI"@, "Num"@)) by { assert("KeyI"@.subrange(0, 3)[0] != "Num"@[0]); }
    assert(!has_prefix("KeyI"@, "F"@)) by { assert("KeyI"@.subrange(0, 1)[0] != "F"@[0]); }
    lemma_plain_token_normalized("KeyI"@);
}

proof fn lemma_vk_key_j()
    ensures
        vk_of("KeyJ"@) == Some(74u32),
        normalized("KeyJ"@) == Some("KeyJ"@),
{
    reveal_strlit("KeyJ");
    reveal_strlit("Key");
    reveal_strlit("Num");
    reveal_strlit("F");
    assert("KeyJ"@.subrange(0, 3) =~= "Key"@);
    assert(!has_prefix("KeyJ"@, "Num"@)) by { assert("KeyJ"@.subrange(0, 3)[0] != "Num"@[0]); }
    assert(!has_prefix("KeyJ"@, "F"@)) by { assert("KeyJ"@.subrange(0, 1)[0] != "F"@[0]); }
    lemma_plain_token_normalized("KeyJ"@);
}

proof fn lemma_vk_key_k()
    ensures
        vk_of("KeyK"@) == Some(75u32),
        normalized("KeyK"@) == Some("KeyK"@),
{
    reveal_strlit("KeyK");
    reveal_strlit("Key");
    reveal_strlit("Num");
    reveal_strlit("F");
    assert("KeyK"@.subrange(0, 3) =~= "Key"@);
    assert(!has_prefix("KeyK"@, "Num"@)) by { assert("KeyK"@.subrange(0, 3)[0] != "Num"@[0]); }
    assert(!has_prefix("KeyK"@, "F"@)) by { assert("KeyK"@.subrange(0, 1)[0] != "F"@[0]); }
    lemma_plain_token_normalized("KeyK"@);
}

proof fn lemma_vk_key_l()
    ensures
        vk_of("KeyL"@) == Some(76u32),
        normalized("KeyL"@) == Some("KeyL"@),
{
    reveal_strlit("KeyL");
    reveal_strlit("Key");
    reveal_strlit("Num");
    reveal_strlit("F");
    assert("KeyL"@.subrange(0, 3) =~= "Key"@);
    assert(!has_prefix("KeyL"@, "Num"@)) by { assert("KeyL"@.subrange(0, 3)[0] != "Num"@[0]); }
    assert(!has_prefix("KeyL"@, "F"@)) by { assert("KeyL"@.subrange(0, 1)[0] != "F"@[0]); }
    lemma_plain_token_normalized("KeyL"@);
}

proof fn lemma_vk_key_m()
    ensures
        vk_of("KeyM"@) == Some(77u32),
        normalized("KeyM"@) == Some("KeyM"@),
{
    reveal_strlit("KeyM");
    reveal_strlit("Key");
    reveal_strlit("Num");
    reveal_strlit("F");
    assert("KeyM"@.subrange(0, 3) =~= "Key"@);
    assert(!has_prefix("KeyM"@, "Num"@)) by { assert("KeyM"@.subrange(0, 3)[0] != "Num"@[0]); }
    assert(!has_prefix("KeyM"@, "F"@)) by { assert("KeyM"@.subrange(0, 1)[0] != "F"@[0]); }
    lemma_plain_token_normalized("KeyM"@);
}

proof fn lemma_vk_key_n()
    ensures
        vk_of("KeyN"@) == Some(78u32),
        normalized("KeyN"@) == Some("KeyN"@),
{
    reveal_strlit("KeyN");
    reveal_strlit("Key");
    reveal_strlit("Num");
    reveal_strlit("F");
    assert("KeyN"@.subrange(0, 3) =~= "Key"@);
    assert(!has_prefix("KeyN"@, "Num"@)) by { assert("KeyN"@.subrange(0, 3)[0] != "Num"@[0]); }
    assert(!has_prefix("KeyN"@, "F"@)) by { assert("KeyN"@.subrange(0, 1)[0] != "F"@[0]); }
    lemma_plain_token_normalized("KeyN"@);
}

proof fn lemma_vk_key_o()
    ensures
        vk_of("KeyO"@) == Some(79u32),
        normalized("KeyO"@) == Some("KeyO"@),
{
    reveal_strlit("KeyO");
    reveal_strlit("Key");
    reveal_strlit("Num");
    reveal_strlit("F");
    assert("KeyO"@.subrange(0, 3) =~= "Key"@);
    assert(!has_prefix("KeyO"@, "Num"@)) by { assert("KeyO"@.subrange(0, 3)[0] != "Num"@[0]); }
    assert(!has_prefix("KeyO"@, "F"@)) by { assert("KeyO"@.subrange(0, 1)[0] != "F"@[0]); }
    lemma_plain_token_normalized("KeyO"@);
}

proof fn lemma_vk_key_p()
    ensures
        vk_of("KeyP"@) == Some(80u32),
        normalized("KeyP"@) == Some("KeyP"@),
{
    reveal_strlit("KeyP");
    reveal_strlit("Key");
    reveal_strlit("Num");
    reveal_strlit("F");
    assert("KeyP"@.subrange(0, 3) =~= "Key"@);
    assert(!has_prefix("KeyP"@, "Num"@)) by { assert("KeyP"@.subrange(0, 3)[0] != "Num"@[0]); }
    assert(!has_prefix("KeyP"@, "F"@)) by { assert("KeyP"@.subrange(0, 1)[0] != "F"@[0]); }
    lemma_plain_token_normalized("KeyP"@);
}

proof fn lemma_vk_key_q()
    ensures
        vk_of("KeyQ"@) == Some(81u32),
        normalized("KeyQ"@) == Some("KeyQ"@),
{
    reveal_strlit("KeyQ");
    reveal_strlit("Key");
    reveal_strlit("Num");
    reveal_strlit("F");
    assert("KeyQ"@.subrange(0, 3) =~= "Key"@);
    assert(!has_prefix("KeyQ"@, "Num"@)) by { assert("KeyQ"@.subrange(0, 3)[0] != "Num"@[0]); }
    assert(!has_prefix("KeyQ"@, "F"@)) by { assert("KeyQ"@.subrange(0, 1)[0] != "F"@[0]); }
    lemma_plain_token_normalized("KeyQ"@);
}

proof fn lemma_vk_key_r()
    ensures
        vk_of("KeyR"@) == Some(82u32),
        normalized("KeyR"@) == Some("KeyR"@),
{
    reveal_strlit("KeyR");
    reveal_strlit("Key");
    reveal_strlit("Num");
    reveal_strlit("F");
    assert("KeyR"@.subrange(0, 3) =~= "Key"@);
    assert(!has_prefix("KeyR"@, "Num"@)) by { assert("KeyR"@.subrange(0, 3)[0] != "Num"@[0]); }
    assert(!has_prefix("KeyR"@, "F"@)) by { assert("KeyR"@.subrange(0, 1)[0] != "F"@[0]); }
    lemma_plain_token_normalized("KeyR"@);
}

proof fn lemma_vk_key_s()
    ensures
        vk_of("KeyS"@) == Some(83u32),
        normalized("KeyS"@) == Some("KeyS"@),
{
    reveal_strlit("KeyS");
    reveal_strlit("Key");
    reveal_strlit("Num");
    reveal_strlit("F");
    assert("KeyS"@.subrange(0, 3) =~= "Key"@);
    assert(!has_prefix("KeyS"@, "Num"@)) by { assert("KeyS"@.subrange(0, 3)[0] != "Num"@[0]); }
    assert(!has_prefix("KeyS"@, "F"@)) by { assert("KeyS"@.subrange(0, 1)[0] != "F"@[0]); }
    lemma_plain_token_normalized("KeyS"@);
}

proof fn lemma_vk_key_t()
    ensures
        vk_of("KeyT"@) == Some(84u32),
        normalized("KeyT"@) == Some("KeyT"@),
{
    reveal_strlit("KeyT");
    reveal_strlit("Key");
    reveal_strlit("Num");
    reveal_strlit("F");
    assert("KeyT"@.subrange(0, 3) =~= "Key"@);
    assert(!has_prefix("KeyT"@, "Num"@)) by { assert("KeyT"@.subrange(0, 3)[0] != "Num"@[0]); }
    assert(!has_prefix("KeyT"@, "F"@)) by { assert("KeyT"@.subrange(0, 1)[0] != "F"@[0]); }
    lemma_plain_token_normalized("KeyT"@);
}

proof fn lemma_vk_key_u()
    ensures
        vk_of("KeyU"@) == Some(85u32),
        normalized("KeyU"@) == Some("KeyU"@),
{
    reveal_strlit("KeyU");
    reveal_strlit("Key");
    reveal_strlit("Num");
    reveal_strlit("F");
    assert("KeyU"@.subrange(0, 3) =~= "Key"@);
    assert(!has_prefix("KeyU"@, "Num"@)) by { assert("KeyU"@.subrange(0, 3)[0] != "Num"@[0]); }
    assert(!has_prefix("KeyU"@, "F"@)) by { assert("KeyU"@.subrange(0, 1)[0] != "F"@[0]); }
    lemma_plain_token_normalized("KeyU"@);
}

proof fn lemma_vk_key_v()
    ensures
        vk_of("KeyV"@) == Some(86u32),
        normalized("KeyV"@) == Some("KeyV"@),
{
    reveal_strlit("KeyV");
    reveal_strlit("Key");
    reveal_strlit("Num");
    reveal_strlit("F");
    assert("KeyV"@.subrange(0, 3) =~= "Key"@);
    assert(!has_prefix("KeyV"@, "Num"@)) by { assert("KeyV"@.subrange(0, 3)[0] != "Num"@[0]); }
    assert(!has_prefix("KeyV"@, "F"@)) by { assert("KeyV"@.subrange(0, 1)[0] != "F"@[0]); }
    lemma_plain_token_normalized("KeyV"@);
}

proof fn lemma_vk_key_w()
    ensures
        vk_of("KeyW"@) == Some(87u32),
        normalized("KeyW"@) == Some("KeyW"@),
{
    reveal_strlit("KeyW");
    reveal_strlit("Key");
    reveal_strlit("Num");
    reveal_strlit("F");
    assert("KeyW"@.subrange(0, 3) =~= "Key"@);
    assert(!has_prefix("KeyW"@, "Num"@)) by { assert("KeyW"@.subrange(0, 3)[0] != "Num"@[0]); }
    assert(!has_prefix("KeyW"@, "F"@)) by { assert("KeyW"@.subrange(0, 1)[0] != "F"@[0]); }
    lemma_plain_token_normalized("KeyW"@);
}

proof fn lemma_vk_key_x()
    ensures
        vk_of("KeyX"@) == Some(88u32),
        normalized("KeyX"@) == Some("KeyX"@),
{
    reveal_strlit("KeyX");
    reveal_strlit("Key");
    reveal_strlit("Num");
    reveal_strlit("F");
    assert("KeyX"@.subrange(0, 3) =~= "Key"@);
    assert(!has_prefix("KeyX"@, "Num"@)) by { assert("KeyX"@.subrange(0, 3)[0] != "Num"@[0]); }
    assert(!has_prefix("KeyX"@, "F"@)) by { assert("KeyX"@.subrange(0, 1)[0] != "F"@[0]); }
    lemma_plain_token_normalized("KeyX"@);
}

proof fn lemma_vk_key_y()
    ensures
        vk_of("KeyY"@) == Some(89u32),
        normalized("KeyY"@) == Some("KeyY"@),
{
    reveal_strlit("KeyY");
    reveal_strlit("Key");
    reveal_strlit("Num");
    reveal_strlit("F");
    assert("KeyY"@.subrange(0, 3) =~= "Key"@);
    assert(!has_prefix("KeyY"@, "Num"@)) by { assert("KeyY"@.subrange(0, 3)[0] != "Num"@[0]); }
    assert(!has_prefix("KeyY"@, "F"@)) by { assert("KeyY"@.subrange(0, 1)[0] != "F"@[0]); }
    lemma_plain_token_normalized("KeyY"@);
}

proof fn lemma_vk_key_z()
    ensures
        vk_of("KeyZ"@) == Some(90u32),
        normalized("KeyZ"@) == Some("KeyZ"@),
{
    reveal_strlit("KeyZ");
    reveal_strlit("Key");
    reveal_strlit("Num");
    reveal_strlit("F");
    assert("KeyZ"@.subrange(0, 3) =~= "Key"@);
    assert(!has_prefix("KeyZ"@, "Num"@)) by { assert("KeyZ"@.subrange(0, 3)[0] != "Num"@[0]); }
    assert(!has_prefix("KeyZ"@, "F"@)) by { assert("KeyZ"@.subrange(0, 1)[0] != "F"@[0]); }
    lemma_plain_token_normalized("KeyZ"@);
}

proof fn lemma_vk_num0()
    ensures
        vk_of("Num0"@) == Some(48u32),
        normalized("Num0"@) == Some("Num0"@),
{
    reveal_strlit("Num0");
    reveal_strlit("Key");
    reveal_strlit("Num");
    reveal_strlit("F");
    assert(!has_prefix("Num0"@, "Key"@)) by { assert("Num0"@.subrange(0, 3)[0] != "Key"@[0]); }
    assert("Num0"@.subrange(0, 3) =~= "Num"@);
    assert(!has_prefix("Num0"@, "F"@)) by { assert("Num0"@.subrange(0, 1)[0] != "F"@[0]); }
    lemma_plain_token_normalized("Num0"@);
}

proof fn lemma_vk_num1()
    ensures
        vk_of("Num1"@) == Some(49u32),
        normalized("Num1"@) == Some("Num1"@),
{
    reveal_strlit("Num1");
    reveal_strlit("Key");
    reveal_strlit("Num");
    reveal_strlit("F");
    assert(!has_prefix("Num1"@, "Key"@)) by { assert("Num1"@.subrange(0, 3)[0] != "Key"@[0]); }
    assert("Num1"@.subrange(0, 3) =~= "Num"@);
    assert(!has_prefix("Num1"@, "F"@)) by { assert("Num1"@.subrange(0, 1)[0] != "F"@[0]); }
    lemma_plain_token_normalized("Num1"@);
}

proof fn lemma_vk_num2()
    ensures
        vk_of("Num2"@) == Some(50u32),
        normalized("Num2"@) == Some("Num2"@),
{
    reveal_strlit("Num2");
    reveal_strlit("Key");
    reveal_strlit("Num");
    reveal_strlit("F");
    assert(!has_prefix("Num2"@, "Key"@)) by { assert("Num2"@.subrange(0, 3)[0] != "Key"@[0]); }
    assert("Num2"@.subrange(0, 3) =~= "Num"@);
    assert(!has_prefix("Num2"@, "F"@)) by { assert("Num2"@.subrange(0, 1)[0] != "F"@[0]); }
    lemma_plain_token_normalized("Num2"@);
}

proof fn lemma_vk_num3()
    ensures
        vk_of("Num3"@) == Some(51u32),
        normalized("Num3"@) == Some("Num3"@),
{
    reveal_strlit("Num3");
    reveal_strlit("Key");
    reveal_strlit("Num");
    reveal_strlit("F");
    assert(!has_prefix("Num3"@, "Key"@)) by { assert("Num3"@.subrange(0, 3)[0] != "Key"@[0]); }
    assert("Num3"@.subrange(0, 3) =~= "Num"@);
    assert(!has_prefix("Num3"@, "F"@)) by { assert("Num3"@.subrange(0, 1)[0] != "F"@[0]); }
    lemma_plain_token_normalized("Num3"@);
}

proof fn lemma_vk_num4()
    ensures
        vk_of("Num4"@) == Some(52u32),
        normalized("Num4"@) == Some("Num4"@),
{
    reveal_strlit("Num4");
    reveal_strlit("Key");
    reveal_strlit("Num");
    reveal_strlit("F");
    assert(!has_prefix("Num4"@, "Key"@)) by { assert("Num4"@.subrange(0, 3)[0] != "Key"@[0]); }
    assert("Num4"@.subrange(0, 3) =~= "Num"@);
    assert(!has_prefix("Num4"@, "F"@)) by { assert("Num4"@.subrange(0, 1)[0] != "F"@[0]); }
    lemma_plain_token_normalized("Num4"@);
}

proof fn lemma_vk_num5()
    ensures
        vk_of("Num5"@) == Some(53u32),
        normalized("Num5"@) == Some("Num5"@),
{
    reveal_strlit("Num5");
    reveal_strlit("Key");
    reveal_strlit("Num");
    reveal_strlit("F");
    assert(!has_prefix("Num5"@, "Key"@)) by { assert("Num5"@.subrange(0, 3)[0] != "Key"@[0]); }
    assert("Num5"@.subrange(0, 3) =~= "Num"@);
    assert(!has_prefix("Num5"@, "F"@)) by { assert("Num5"@.subrange(0, 1)[0] != "F"@[0]); }
    lemma_plain_token_normalized("Num5"@);
}

proof fn lemma_vk_num6()
    ensures
        vk_of("Num6"@) == Some(54u32),
        normalized("Num6"@) == Some("Num6"@),
{
    reveal_strlit("Num6");
    reveal_strlit("Key");
    reveal_strlit("Num");
    reveal_strlit("F");
    assert(!has_prefix("Num6"@, "Key"@)) by { assert("Num6"@.subrange(0, 3)[0] != "Key"@[0]); }
    assert("Num6"@.subrange(0, 3) =~= "Num"@);
    assert(!has_prefix("Num6"@, "F"@)) by { assert("Num6"@.subrange(0, 1)[0] != "F"@[0]); }
    lemma_plain_token_normalized("Num6"@);
}

proof fn lemma_vk_num7()
    ensures
        vk_of("Num7"@) == Some(55u32),
        normalized("Num7"@) == Some("Num7"@),
{
    reveal_strlit("Num7");
    reveal_strlit("Key");
    reveal_strlit("Num");
    reveal_strlit("F");
    assert(!has_prefix("Num7"@, "Key"@)) by { assert("Num7"@.subrange(0, 3)[0] != "Key"@[0]); }
    assert("Num7"@.subrange(0, 3) =~= "Num"@);
    assert(!has_prefix("Num7"@, "F"@)) by { assert("Num7"@.subrange(0, 1)[0] != "F"@[0]); }
    lemma_plain_token_normalized("Num7"@);
}

proof fn lemma_vk_num8()
    ensures
        vk_of("Num8"@) == Some(56u32),
        normalized("Num8"@) == Some("Num8"@),
{
    reveal_strlit("Num8");
    reveal_strlit("Key");
    reveal_strlit("Num");
    reveal_strlit("F");
    assert(!has_prefix("Num8"@, "Key"@)) by { assert("Num8"@.subrange(0, 3)[0] != "Key"@[0]); }
    assert("Num8"@.subrange(0, 3) =~= "Num"@);
    assert(!has_prefix("Num8"@, "F"@)) by { assert("Num8"@.subrange(0, 1)[0] != "F"@[0]); }
    lemma_plain_token_normalized("Num8"@);
}

proof fn lemma_vk_num9()
    ensures
        vk_of("Num9"@) == Some(57u32),
        normalized("Num9"@) == Some("Num9"@),
{
    reveal_strlit("Num9");
    reveal_strlit("Key");
    reveal_strlit("Num");
    reveal_strlit("F");
    assert(!has_prefix("Num9"@, "Key"@)) by { assert("Num9"@.subrange(0, 3)[0] != "Key"@[0]); }
    assert("Num9"@.subrange(0, 3) =~= "Num"@);
    assert(!has_prefix("Num9"@, "F"@)) by { assert("Num9"@.subrange(0, 1)[0] != "F"@[0]); }
    lemma_plain_token_normalized("Num9"@);
}

proof fn lemma_vk_down_arrow()
    ensures
        vk_of("DownArrow"@) == Some(40u32),
        normalized("DownArrow"@) == Some("DownArrow"@),
{
    reveal_strlit("DownArrow");
    reveal_strlit("Key");
    reveal_strlit("Num");
    reveal_strlit("F");
    assert(!has_prefix("DownArrow"@, "Key"@)) by { assert("DownArrow"@.subrange(0, 3)[0] != "Key"@[0]); }
    assert(!has_prefix("DownArrow"@, "Num"@)) by { assert("DownArrow"@.subrange(0, 3)[0] != "Num"@[0]); }
    assert(!has_prefix("DownArrow"@, "F"@)) by { assert("DownArrow"@.subrange(0, 1)[0] != "F"@[0]); }
    reveal_strlit("Space");
    assert("DownArrow"@.len() != "Space"@.len());
    reveal_strlit("Tab");
    assert("DownArrow"@.len() != "Tab"@.len());
    reveal_strlit("Backspace");
    assert("DownArrow"@[0] != "Backspace"@[0]);
    reveal_strlit("Return");
    assert("DownArrow"@.len() != "Return"@.len());
    reveal_strlit("Escape");
    assert("DownArrow"@.len() != "Escape"@.len());
    reveal_strlit("CapsLock");
    assert("DownArrow"@.len() != "CapsLock"@.len());
    reveal_strlit("NumLock");
    assert("DownArrow"@.len() != "NumLock"@.len());
    reveal_strlit("ScrollLock");
    assert("DownArrow"@.len() != "ScrollLock"@.len());
    reveal_strlit("PrintScreen");
    assert("DownArrow"@.len() != "PrintScreen"@.len());
    reveal_strlit("Pause");
    assert("DownArrow"@.len() != "Pause"@.len());
    reveal_strlit("Menu");
    assert("DownArrow"@.len() != "Menu"@.len());
    reveal_strlit("MetaLeft");
    assert("DownArrow"@.len() != "MetaLeft"@.len());
    reveal_strlit("MetaRight");
    assert("DownArrow"@[0] != "MetaRight"@[0]);
    reveal_strlit("Command");
    assert("DownArrow"@.len() != "Command"@.len());
    reveal_strlit("Super");
    assert("DownArrow"@.len() != "Super"@.len());
    reveal_strlit("Win");
    assert("DownArrow"@.len() != "Win"@.len());
    reveal_strlit("Insert");
    assert("DownArrow"@.len() != "Insert"@.len());
    reveal_strlit("Delete");
    assert("DownArrow"@.len() != "Delete"@.len());
    reveal_strlit("Home");
    assert("DownArrow"@.len() != "Home"@.len());
    reveal_strlit("End");
    assert("DownArrow"@.len() != "End"@.len());
    reveal_strlit("PageUp");
    assert("DownArrow"@.len() != "PageUp"@.len());
    reveal_strlit("PageDown");
    assert("DownArrow"@.len() != "PageDown"@.len());
    reveal_strlit("UpArrow");
    assert("DownArrow"@.len() != "UpArrow"@.len());
    reveal_strlit("DownArrow");
    lemma_plain_token_normalized("DownArrow"@);
}

proof fn lemma_vk_left_arrow()
    ensures
        vk_of("LeftArrow"@) == Some(37u32),
        normalized("LeftArrow"@) == Some("LeftArrow"@),
{
    reveal_strlit("LeftArrow");
    reveal_strlit("Key");
    reveal_strlit("Num");
    reveal_strlit("F");
    assert(!has_prefix("LeftArrow"@, "Key"@)) by { assert("LeftArrow"@.subrange(0, 3)[0] != "Key"@[0]); }
    assert(!has_prefix("LeftArrow"@, "Num"@)) by { assert("LeftArrow"@.subrange(0, 3)[0] != "Num"@[0]); }
    assert(!has_prefix("LeftArrow"@, "F"@)) by { assert("LeftArrow"@.subrange(0, 1)[0] != "F"@[0]); }
    reveal_strlit("Space");
    assert("LeftArrow"@.len() != "Space"@.len());
    reveal_strlit("Tab");
    assert("LeftArrow"@.len() != "Tab"@.len());
    reveal_strlit("Backspace");
    assert("LeftArrow"@[0] != "Backspace"@[0]);
    reveal_strlit("Return");
    assert("LeftArrow"@.len() != "Return"@.len());
    reveal_strlit("Escape");
    assert("LeftArrow"@.len() != "Escape"@.len());
    reveal_strlit("CapsLock");
    assert("LeftArrow"@.len() != "CapsLock"@.len());
    reveal_strlit("NumLock");
    assert("LeftArrow"@.len() != "NumLock"@.len());
    reveal_strlit("ScrollLock");
    assert("LeftArrow"@.len() != "ScrollLock"@.len());
    reveal_strlit("PrintScreen");
    assert("LeftArrow"@.len() != "PrintScreen"@.len());
    reveal_strlit("Pause");
    assert("LeftArrow"@.len() != "Pause"@.len());
    reveal_strlit("Menu");
    assert("LeftArrow"@.len() != "Menu"@.len());
    reveal_strlit("MetaLeft");
    assert("LeftArrow"@.len() != "MetaLeft"@.len());
    reveal_strlit("MetaRight");
    assert("LeftArrow"@[0] != "MetaRight"@[0]);
    reveal_strlit("Command");
    assert("LeftArrow"@.len() != "Command"@.len());
    reveal_strlit("Super");
    assert("LeftArrow"@.len() != "Super"@.len());
    reveal_strlit("Win");
    assert("LeftArrow"@.len() != "Win"@.len());
    reveal_strlit("Insert");
    assert("LeftArrow"@.len() != "Insert"@.len());
    reveal_strlit("Delete");
    assert("LeftArrow"@.len() != "Delete"@.len());
    reveal_strlit("Home");
    assert("LeftArrow"@.len() != "Home"@.len());
    reveal_strlit("End");
    assert("LeftArrow"@.len() != "End"@.len());
    reveal_strlit("PageUp");
    assert("LeftArrow"@.len() != "PageUp"@.len());
    reveal_strlit("PageDown");
    assert("LeftArrow"@.len() != "PageDown"@.len());
    reveal_strlit("UpArrow");
    assert("LeftArrow"@.len() != "UpArrow"@.len());
    reveal_strlit("DownArrow");
    assert("LeftArrow"@[0] != "DownArrow"@[0]);
    reveal_strlit("LeftArrow");
    lemma_plain_token_normalized("LeftArrow"@);
}

proof fn lemma_vk_right_arrow()
    ensures
        vk_of("RightArrow"@) == Some(39u32),
        normalized("RightArrow"@) == Some("RightArrow"@),
{
    reveal_strlit("RightArrow");
    reveal_strlit("Key");
    reveal_strlit("Num");
    reveal_strlit("F");
    assert(!has_prefix("RightArrow"@, "Key"@)) by { assert("RightArrow"@.subrange(0, 3)[0] != "Key"@[0]); }
    assert(!has_prefix("RightArrow"@, "Num"@)) by { assert("RightArrow"@.subrange(0, 3)[0] != "Num"@[0]); }
    assert(!has_prefix("RightArrow"@, "F"@)) by { assert("RightArrow"@.subrange(0, 1)[0] != "F"@[0]); }
    reveal_strlit("Space");
    assert("RightArrow"@.len() != "Space"@.len());
    reveal_strlit("Tab");
    assert("RightArrow"@.len() != "Tab"@.len());
    reveal_strlit("Backspace");
    assert("RightArrow"@.len() != "Backspace"@.len());
    reveal_strlit("Return");
    assert("RightArrow"@.len() != "Return"@.len());
    reveal_strlit("Escape");
    assert("RightArrow"@.len() != "Escape"@.len());
    reveal_strlit("CapsLock");
    assert("RightArrow"@.len() != "CapsLock"@.len());
    reveal_strlit("NumLock");
    assert("RightArrow"@.len() != "NumLock"@.len());
    reveal_strlit("ScrollLock");
    assert("RightArrow"@[0] != "ScrollLock"@[0]);
    reveal_strlit("PrintScreen");
    assert("RightArrow"@.len() != "PrintScreen"@.len());
    reveal_strlit("Pause");
    assert("RightArrow"@.len() != "Pause"@.len());
    reveal_strlit("Menu");
    assert("RightArrow"@.len() != "Menu"@.len());
    reveal_strlit("MetaLeft");
    assert("RightArrow"@.len() != "MetaLeft"@.len());
    reveal_strlit("MetaRight");
    assert("RightArrow"@.len() != "MetaRight"@.len());
    reveal_strlit("Command");
    assert("RightArrow"@.len() != "Command"@.len());
    reveal_strlit("Super");
    assert("RightArrow"@.len() != "Super"@.len());
    reveal_strlit("Win");
    assert("RightArrow"@.len() != "Win"@.len());
    reveal_strlit("Insert");
    assert("RightArrow"@.len() != "Insert"@.len());
    reveal_strlit("Delete");
    assert("RightArrow"@.len() != "Delete"@.len());
    reveal_strlit("Home");
    assert("RightArrow"@.len() != "Home"@.len());
    reveal_strlit("End");
    assert("RightArrow"@.len() != "End"@.len());
    reveal_strlit("PageUp");
    assert("RightArrow"@.len() != "PageUp"@.len());
    reveal_strlit("PageDown");
    assert("RightArrow"@.len() != "PageDown"@.len());
    reveal_strlit("UpArrow");
    assert("RightArrow"@.len() != "UpArrow"@.len());
    reveal_strlit("DownArrow");
    assert("RightArrow"@.len() != "DownArrow"@.len());
    reveal_strlit("LeftArrow");
    assert("RightArrow"@.len() != "LeftArrow"@.len());
    reveal_strlit("RightArrow");
    lemma_plain_token_normalized("RightArrow"@);
}

proof fn lemma_vk_up_arrow()
    ensures
        vk_of("UpArrow"@) == Some(38u32),
        normalized("UpArrow"@) == Some("UpArrow"@),
{
    reveal_strlit("UpArrow");
    reveal_strlit("Key");
    reveal_strlit("Num");
    reveal_strlit("F");
    assert(!has_prefix("UpArrow"@, "Key"@)) by { assert("UpArrow"@.subrange(0, 3)[0] != "Key"@[0]); }
    assert(!has_prefix("UpArrow"@, "Num"@)) by { assert("UpArrow"@.subrange(0, 3)[0] != "Num"@[0]); }
    assert(!has_prefix("UpArrow"@, "F"@)) by { assert("UpArrow"@.subrange(0, 1)[0] != "F"@[0]); }
    reveal_strlit("Space");
    assert("UpArrow"@.len() != "Space"@.len());
    reveal_strlit("Tab");
    assert("UpArrow"@.len() != "Tab"@.len());
    reveal_strlit("Backspace");
    assert("UpArrow"@.len() != "Backspace"@.len());
    reveal_strlit("Return");
    assert("UpArrow"@.len() != "Return"@.len());
    reveal_strlit("Escape");
    assert("UpArrow"@.len() != "Escape"@.len());
    reveal_strlit("CapsLock");
    assert("UpArrow"@.len() != "CapsLock"@.len());
    reveal_strlit("NumLock");
    assert("UpArrow"@[0] != "NumLock"@[0]);
    reveal_strlit("ScrollLock");
    assert("UpArrow"@.len() != "ScrollLock"@.len());
    reveal_strlit("PrintScreen");
    assert("UpArrow"@.len() != "PrintScreen"@.len());
    reveal_strlit("Pause");
    assert("UpArrow"@.len() != "Pause"@.len());
    reveal_strlit("Menu");
    assert("UpArrow"@.len() != "Menu"@.len());
    reveal_strlit("MetaLeft");
    assert("UpArrow"@.len() != "MetaLeft"@.len());
    reveal_strlit("MetaRight");
    assert("UpArrow"@.len() != "MetaRight"@.len());
    reveal_strlit("Command");
    assert("UpArrow"@[0] != "Command"@[0]);
    reveal_strlit("Super");
    assert("UpArrow"@.len() != "Super"@.len());
    reveal_strlit("Win");
    assert("UpArrow"@.len() != "Win"@.len());
    reveal_strlit("Insert");
    assert("UpArrow"@.len() != "Insert"@.len());
    reveal_strlit("Delete");
    assert("UpArrow"@.len() != "Delete"@.len());
    reveal_strlit("Home");
    assert("UpArrow"@.len() != "Home"@.len());
    reveal_strlit("End");
    assert("UpArrow"@.len() != "End"@.len());
    reveal_strlit("PageUp");
    assert("UpArrow"@.len() != "PageUp"@.len());
    reveal_strlit("PageDown");
    assert("UpArrow"@.len() != "PageDown"@.len());
    reveal_strlit("UpArrow");
    lemma_plain_token_normalized("UpArrow"@);
}

proof fn lemma_vk_escape()
    ensures
        vk_of("Escape"@) == Some(27u32),
        normalized("Escape"@) == Some("Escape"@),
{
    reveal_strlit("Escape");
    reveal_strlit("Key");
    reveal_strlit("Num");
    reveal_strlit("F");
    assert(!has_prefix("Escape"@, "Key"@)) by { assert("Escape"@.subrange(0, 3)[0] != "Key"@[0]); }
    assert(!has_prefix("Escape"@, "Num"@)) by { assert("Escape"@.subrange(0, 3)[0] != "Num"@[0]); }
    assert(!has_prefix("Escape"@, "F"@)) by { assert("Escape"@.subrange(0, 1)[0] != "F"@[0]); }
    reveal_strlit("Space");
    assert("Escape"@.len() != "Space"@.len());
    reveal_strlit("Tab");
    assert("Escape"@.len() != "Tab"@.len());
    reveal_strlit("Backspace");
    assert("Escape"@.len() != "Backspace"@.len());
    reveal_strlit("Return");
    assert("Escape"@[0] != "Return"@[0]);
    reveal_strlit("Escape");
    lemma_plain_token_normalized("Escape"@);
}

proof fn lemma_vk_tab()
    ensures
        vk_of("Tab"@) == Some(9u32),
        normalized("Tab"@) == Some("Tab"@),
{
    reveal_strlit("Tab");
    reveal_strlit("Key");
    reveal_strlit("Num");
    reveal_strlit("F");
    assert(!has_prefix("Tab"@, "Key"@)) by { assert("Tab"@.subrange(0, 3)[0] != "Key"@[0]); }
    assert(!has_prefix("Tab"@, "Num"@)) by { assert("Tab"@.subrange(0, 3)[0] != "Num"@[0]); }
    assert(!has_prefix("Tab"@, "F"@)) by { assert("Tab"@.subrange(0, 1)[0] != "F"@[0]); }
    reveal_strlit("Space");
    assert("Tab"@.len() != "Space"@.len());
    reveal_strlit("Tab");
    lemma_plain_token_normalized("Tab"@);
}

proof fn lemma_vk_backspace()
    ensures
        vk_of("Backspace"@) == Some(8u32),
        normalized("Backspace"@) == Some("Backspace"@),
{
    reveal_strlit("Backspace");
    reveal_strlit("Key");
    reveal_strlit("Num");
    reveal_strlit("F");
    assert(!has_prefix("Backspace"@, "Key"@)) by { assert("Backspace"@.subrange(0, 3)[0] != "Key"@[0]); }
    assert(!has_prefix("Backspace"@, "Num"@)) by { assert("Backspace"@.subrange(0, 3)[0] != "Num"@[0]); }
    assert(!has_prefix("Backspace"@, "F"@)) by { assert("Backspace"@.subrange(0, 1)[0] != "F"@[0]); }
    reveal_strlit("Space");
    assert("Backspace"@.len() != "Space"@.len());
    reveal_strlit("Tab");
    assert("Backspace"@.len() != "Tab"@.len());
    reveal_strlit("Backspace");
    lemma_plain_token_normalized("Backspace"@);
}

proof fn lemma_vk_return()
    ensures
        vk_of("Return"@) == Some(13u32),
        normalized("Return"@) == Some("Return"@),
{
    reveal_strlit("Return");
    reveal_strlit("Key");
    reveal_strlit("Num");
    reveal_strlit("F");
    assert(!has_prefix("Return"@, "Key"@)) by { assert("Return"@.subrange(0, 3)[0] != "Key"@[0]); }
    assert(!has_prefix("Return"@, "Num"@)) by { assert("Return"@.subrange(0, 3)[0] != "Num"@[0]); }
    assert(!has_prefix("Return"@, "F"@)) by { assert("Return"@.subrange(0, 1)[0] != "F"@[0]); }
    reveal_strlit("Space");
    assert("Return"@.len() != "Space"@.len());
    reveal_strlit("Tab");
    assert("Return"@.len() != "Tab"@.len());
    reveal_strlit("Backspace");
    assert("Return"@.len() != "Backspace"@.len());
    reveal_strlit("Return");
    lemma_plain_token_normalized("Return"@);
}

proof fn lemma_vk_space()
    ensures
        vk_of("Space"@) == Some(32u32),
        normalized("Space"@) == Some("Space"@),
{
    reveal_strlit("Space");
    reveal_strlit("Key");
    reveal_strlit("Num");
    reveal_strlit("F");
    assert(!has_prefix("Space"@, "Key"@)) by { assert("Space"@.subrange(0, 3)[0] != "Key"@[0]); }
    assert(!has_prefix("Space"@, "Num"@)) by { assert("Space"@.subrange(0, 3)[0] != "Num"@[0]); }
    assert(!has_prefix("Space"@, "F"@)) by { assert("Space"@.subrange(0, 1)[0] != "F"@[0]); }
    reveal_strlit("Space");
    lemma_plain_token_normalized("Space"@);
}

proof fn lemma_vk_insert()
    ensures
        vk_of("Insert"@) == Some(45u32),
        normalized("Insert"@) == Some("Insert"@),
{
    reveal_strlit("Insert");
    reveal_strlit("Key");
    reveal_strlit("Num");
    reveal_strlit("F");
    assert(!has_prefix("Insert"@, "Key"@)) by { assert("Insert"@.subrange(0, 3)[0] != "Key"@[0]); }
    assert(!has_prefix("Insert"@, "Num"@)) by { assert("Insert"@.subrange(0, 3)[0] != "Num"@[0]); }
    assert(!has_prefix("Insert"@, "F"@)) by { assert("Insert"@.subrange(0, 1)[0] != "F"@[0]); }
    reveal_strlit("Space");
    assert("Insert"@.len() != "Space"@.len());
    reveal_strlit("Tab");
    assert("Insert"@.len() != "Tab"@.len());
    reveal_strlit("Backspace");
    assert("Insert"@.len() != "Backspace"@.len());
    reveal_strlit("Return");
    assert("Insert"@[0] != "Return"@[0]);
    reveal_strlit("Escape");
    assert("Insert"@[0] != "Escape"@[0]);
    reveal_strlit("CapsLock");
    assert("Insert"@.len() != "CapsLock"@.len());
    reveal_strlit("NumLock");
    assert("Insert"@.len() != "NumLock"@.len());
    reveal_strlit("ScrollLock");
    assert("Insert"@.len() != "ScrollLock"@.len());
    reveal_strlit("PrintScreen");
    assert("Insert"@.len() != "PrintScreen"@.len());
    reveal_strlit("Pause");
    assert("Insert"@.len() != "Pause"@.len());
    reveal_strlit("Menu");
    assert("Insert"@.len() != "Menu"@.len());
    reveal_strlit("MetaLeft");
    assert("Insert"@.len() != "MetaLeft"@.len());
    reveal_strlit("MetaRight");
    assert("Insert"@.len() != "MetaRight"@.len());
    reveal_strlit("Command");
    assert("Insert"@.len() != "Command"@.len());
    reveal_strlit("Super");
    assert("Insert"@.len() != "Super"@.len());
    reveal_strlit("Win");
    assert("Insert"@.len() != "Win"@.len());
    reveal_strlit("Insert");
    lemma_plain_token_normalized("Insert"@);
}

proof fn lemma_vk_delete()
    ensures
        vk_of("Delete"@) == Some(46u32),
        normalized("Delete"@) == Some("Delete"@),
{
    reveal_strlit("Delete");
    reveal_strlit("Key");
    reveal_strlit("Num");
    reveal_strlit("F");
    assert(!has_prefix("Delete"@, "Key"@)) by { assert("Delete"@.subrange(0, 3)[0] != "Key"@[0]); }
    assert(!has_prefix("Delete"@, "Num"@)) by { assert("Delete"@.subrange(0, 3)[0] != "Num"@[0]); }
    assert(!has_prefix("Delete"@, "F"@)) by { assert("Delete"@.subrange(0, 1)[0] != "F"@[0]); }
    reveal_strlit("Space");
    assert("Delete"@.len() != "Space"@.len());
    reveal_strlit("Tab");
    assert("Delete"@.len() != "Tab"@.len());
    reveal_strlit("Backspace");
    assert("Delete"@.len() != "Backspace"@.len());
    reveal_strlit("Return");
    assert("Delete"@[0] != "Return"@[0]);
    reveal_strlit("Escape");
    assert("Delete"@[0] != "Escape"@[0]);
    reveal_strlit("CapsLock");
    assert("Delete"@.len() != "CapsLock"@.len());
    reveal_strlit("NumLock");
    assert("Delete"@.len() != "NumLock"@.len());
    reveal_strlit("ScrollLock");
    assert("Delete"@.len() != "ScrollLock"@.len());
    reveal_strlit("PrintScreen");
    assert("Delete"@.len() != "PrintScreen"@.len());
    reveal_strlit("Pause");
    assert("Delete"@.len() != "Pause"@.len());
    reveal_strlit("Menu");
    assert("Delete"@.len() != "Menu"@.len());
    reveal_strlit("MetaLeft");
    assert("Delete"@.len() != "MetaLeft"@.len());
    reveal_strlit("MetaRight");
    assert("Delete"@.len() != "MetaRight"@.len());
    reveal_strlit("Command");
    assert("Delete"@.len() != "Command"@.len());
    reveal_strlit("Super");
    assert("Delete"@.len() != "Super"@.len());
    reveal_strlit("Win");
    assert("Delete"@.len() != "Win"@.len());
    reveal_strlit("Insert");
    assert("Delete"@[0] != "Insert"@[0]);
    reveal_strlit("Delete");
    lemma_plain_token_normalized("Delete"@);
}

proof fn lemma_vk_home()
    ensures
        vk_of("Home"@) == Some(36u32),
        normalized("Home"@) == Some("Home"@),
{
    reveal_strlit("Home");
    reveal_strlit("Key");
    reveal_strlit("Num");
    reveal_strlit("F");
    assert(!has_prefix("Home"@, "Key"@)) by { assert("Home"@.subrange(0, 3)[0] != "Key"@[0]); }
    assert(!has_prefix("Home"@, "Num"@)) by { assert("Home"@.subrange(0, 3)[0] != "Num"@[0]); }
    assert(!has_prefix("Home"@, "F"@)) by { assert("Home"@.subrange(0, 1)[0] != "F"@[0]); }
    reveal_strlit("Space");
    assert("Home"@.len() != "Space"@.len());
    reveal_strlit("Tab");
    assert("Home"@.len() != "Tab"@.len());
    reveal_strlit("Backspace");
    assert("Home"@.len() != "Backspace"@.len());
    reveal_strlit("Return");
    assert("Home"@.len() != "Return"@.len());
    reveal_strlit("Escape");
    assert("Home"@.len() != "Escape"@.len());
    reveal_strlit("CapsLock");
    assert("Home"@.len() != "CapsLock"@.len());
    reveal_strlit("NumLock");
    assert("Home"@.len() != "NumLock"@.len());
    reveal_strlit("ScrollLock");
    assert("Home"@.len() != "ScrollLock"@.len());
    reveal_strlit("PrintScreen");
    assert("Home"@.len() != "PrintScreen"@.len());
    reveal_strlit("Pause");
    assert("Home"@.len() != "Pause"@.len());
    reveal_strlit("Menu");
    assert("Home"@[0] != "Menu"@[0]);
    reveal_strlit("MetaLeft");
    assert("Home"@.len() != "MetaLeft"@.len());
    reveal_strlit("MetaRight");
    assert("Home"@.len() != "MetaRight"@.len());
    reveal_strlit("Command");
    assert("Home"@.len() != "Command"@.len());
    reveal_strlit("Super");
    assert("Home"@.len() != "Super"@.len());
    reveal_strlit("Win");
    assert("Home"@.len() != "Win"@.len());
    reveal_strlit("Insert");
    assert("Home"@.len() != "Insert"@.len());
    reveal_strlit("Delete");
    assert("Home"@.len() != "Delete"@.len());
    reveal_strlit("Home");
    lemma_plain_token_normalized("Home"@);
}

proof fn lemma_vk_end()
    ensures
        vk_of("End"@) == Some(35u32),
        normalized("End"@) == Some("End"@),
{
    reveal_strlit("End");
    reveal_strlit("Key");
    reveal_strlit("Num");
    reveal_strlit("F");
    assert(!has_prefix("End"@, "Key"@)) by { assert("End"@.subrange(0, 3)[0] != "Key"@[0]); }
    assert(!has_prefix("End"@, "Num"@)) by { assert("End"@.subrange(0, 3)[0] != "Num"@[0]); }
    assert(!has_prefix("End"@, "F"@)) by { assert("End"@.subrange(0, 1)[0] != "F"@[0]); }
    reveal_strlit("Space");
    assert("End"@.len() != "Space"@.len());
    reveal_strlit("Tab");
    assert("End"@[0] != "Tab"@[0]);
    reveal_strlit("Backspace");
    assert("End"@.len() != "Backspace"@.len());
    reveal_strlit("Return");
    assert("End"@.len() != "Return"@.len());
    reveal_strlit("Escape");
    assert("End"@.len() != "Escape"@.len());
    reveal_strlit("CapsLock");
    assert("End"@.len() != "CapsLock"@.len());
    reveal_strlit("NumLock");
    assert("End"@.len() != "NumLock"@.len());
    reveal_strlit("ScrollLock");
    assert("End"@.len() != "ScrollLock"@.len());
    reveal_strlit("PrintScreen");
    assert("End"@.len() != "PrintScreen"@.len());
    reveal_strlit("Pause");
    assert("End"@.len() != "Pause"@.len());
    reveal_strlit("Menu");
    assert("End"@.len() != "Menu"@.len());
    reveal_strlit("MetaLeft");
    assert("End"@.len() != "MetaLeft"@.len());
    reveal_strlit("MetaRight");
    assert("End"@.len() != "MetaRight"@.len());
    reveal_strlit("Command");
    assert("End"@.len() != "Command"@.len());
    reveal_strlit("Super");
    assert("End"@.len() != "Super"@.len());
    reveal_strlit("Win");
    assert("End"@[0] != "Win"@[0]);
    reveal_strlit("Insert");
    assert("End"@.len() != "Insert"@.len());
    reveal_strlit("Delete");
    assert("End"@.len() != "Delete"@.len());
    reveal_strlit("Home");
    assert("End"@.len() != "Home"@.len());
    reveal_strlit("End");
    lemma_plain_token_normalized("End"@);
}

proof fn lemma_vk_page_up()
    ensures
        vk_of("PageUp"@) == Some(33u32),
        normalized("PageUp"@) == Some("PageUp"@),
{
    reveal_strlit("PageUp");
    reveal_strlit("Key");
    reveal_strlit("Num");
    reveal_strlit("F");
    assert(!has_prefix("PageUp"@, "Key"@)) by { assert("PageUp"@.subrange(0, 3)[0] != "Key"@[0]); }
    assert(!has_prefix("PageUp"@, "Num"@)) by { assert("PageUp"@.subrange(0, 3)[0] != "Num"@[0]); }
    assert(!has_prefix("PageUp"@, "F"@)) by { assert("PageUp"@.subrange(0, 1)[0] != "F"@[0]); }
    reveal_strlit("Space");
    assert("PageUp"@.len() != "Space"@.len());
    reveal_strlit("Tab");
    assert("PageUp"@.len() != "Tab"@.len());
    reveal_strlit("Backspace");
    assert("PageUp"@.len() != "Backspace"@.len());
    reveal_strlit("Return");
    assert("PageUp"@[0] != "Return"@[0]);
    reveal_strlit("Escape");
    assert("PageUp"@[0] != "Escape"@[0]);
    reveal_strlit("CapsLock");
    assert("PageUp"@.len() != "CapsLock"@.len());
    reveal_strlit("NumLock");
    assert("PageUp"@.len() != "NumLock"@.len());
    reveal_strlit("ScrollLock");
    assert("PageUp"@.len() != "ScrollLock"@.len());
    reveal_strlit("PrintScreen");
    assert("PageUp"@.len() != "PrintScreen"@.len());
    reveal_strlit("Pause");
    assert("PageUp"@.len() != "Pause"@.len());
    reveal_strlit("Menu");
    assert("PageUp"@.len() != "Menu"@.len());
    reveal_strlit("MetaLeft");
    assert("PageUp"@.len() != "MetaLeft"@.len());
    reveal_strlit("MetaRight");
    assert("PageUp"@.len() != "MetaRight"@.len());
    reveal_strlit("Command");
    assert("PageUp"@.len() != "Command"@.len());
    reveal_strlit("Super");
    assert("PageUp"@.len() != "Super"@.len());
    reveal_strlit("Win");
    assert("PageUp"@.len() != "Win"@.len());
    reveal_strlit("Insert");
    assert("PageUp"@[0] != "Insert"@[0]);
    reveal_strlit("Delete");
    assert("PageUp"@[0] != "Delete"@[0]);
    reveal_strlit("Home");
    assert("PageUp"@.len() != "Home"@.len());
    reveal_strlit("End");
    assert("PageUp"@.len() != "End"@.len());
    reveal_strlit("PageUp");
    lemma_plain_token_normalized("PageUp"@);
}

proof fn lemma_vk_page_down()
    ensures
        vk_of("PageDown"@) == Some(34u32),
        normalized("PageDown"@) == Some("PageDown"@),
{
    reveal_strlit("PageDown");
    reveal_strlit("Key");
    reveal_strlit("Num");
    reveal_strlit("F");
    assert(!has_prefix("PageDown"@, "Key"@)) by { assert("PageDown"@.subrange(0, 3)[0] != "Key"@[0]); }
    assert(!has_prefix("PageDown"@, "Num"@)) by { assert("PageDown"@.subrange(0, 3)[0] != "Num"@[0]); }
    assert(!has_prefix("PageDown"@, "F"@)) by { assert("PageDown"@.subrange(0, 1)[0] != "F"@[0]); }
    reveal_strlit("Space");
    assert("PageDown"@.len() != "Space"@.len());
    reveal_strlit("Tab");
    assert("PageDown"@.len() != "Tab"@.len());
    reveal_strlit("Backspace");
    assert("PageDown"@.len() != "Backspace"@.len());
    reveal_strlit("Return");
    assert("PageDown"@.len() != "Return"@.len());
    reveal_strlit("Escape");
    assert("PageDown"@.len() != "Escape"@.len());
    reveal_strlit("CapsLock");
    assert("PageDown"@[0] != "CapsLock"@[0]);
    reveal_strlit("NumLock");
    assert("PageDown"@.len() != "NumLock"@.len());
    reveal_strlit("ScrollLock");
    assert("PageDown"@.len() != "ScrollLock"@.len());
    reveal_strlit("PrintScreen");
    assert("PageDown"@.len() != "PrintScreen"@.len());
    reveal_strlit("Pause");
    assert("PageDown"@.len() != "Pause"@.len());
    reveal_strlit("Menu");
    assert("PageDown"@.len() != "Menu"@.len());
    reveal_strlit("MetaLeft");
    assert("PageDown"@[0] != "MetaLeft"@[0]);
    reveal_strlit("MetaRight");
    assert("PageDown"@.len() != "MetaRight"@.len());
    reveal_strlit("Command");
    assert("PageDown"@.len() != "Command"@.len());
    reveal_strlit("Super");
    assert("PageDown"@.len() != "Super"@.len());
    reveal_strlit("Win");
    assert("PageDown"@.len() != "Win"@.len());
    reveal_strlit("Insert");
    assert("PageDown"@.len() != "Insert"@.len());
    reveal_strlit("Delete");
    assert("PageDown"@.len() != "Delete"@.len());
    reveal_strlit("Home");
    assert("PageDown"@.len() != "Home"@.len());
    reveal_strlit("End");
    assert("PageDown"@.len() != "End"@.len());
    reveal_strlit("PageUp");
    assert("PageDown"@.len() != "PageUp"@.len());
    reveal_strlit("PageDown");
    lemma_plain_token_normalized("PageDown"@);
}

proof fn lemma_vk_f1()
    ensures
        vk_of("F1"@) == Some(112u32),
        normalized("F1"@) == Some("F1"@),
{
    reveal_strlit("F1");
    reveal_strlit("Key");
    reveal_strlit("Num");
    reveal_strlit("F");
    assert(!has_prefix("F1"@, "Key"@));
    assert(!has_prefix("F1"@, "Num"@));
    assert("F1"@.subrange(0, 1) =~= "F"@);
    reveal_with_fuel(decimal, 3);
    assert("F1"@.subrange(1, "F1"@.len() as int) =~= decimal(1nat));
    lemma_decimal_parses(1u32);
    lemma_plain_token_normalized("F1"@);
}

proof fn lemma_vk_f2()
    ensures
        vk_of("F2"@) == Some(113u32),
        normalized("F2"@) == Some("F2"@),
{
    reveal_strlit("F2");
    reveal_strlit("Key");
    reveal_strlit("Num");
    reveal_strlit("F");
    assert(!has_prefix("F2"@, "Key"@));
    assert(!has_prefix("F2"@, "Num"@));
    assert("F2"@.subrange(0, 1) =~= "F"@);
    reveal_with_fuel(decimal, 3);
    assert("F2"@.subrange(1, "F2"@.len() as int) =~= decimal(2nat));
    lemma_decimal_parses(2u32);
    lemma_plain_token_normalized("F2"@);
}

proof fn lemma_vk_f3()
    ensures
        vk_of("F3"@) == Some(114u32),
        normalized("F3"@) == Some("F3"@),
{
    reveal_strlit("F3");
    reveal_strlit("Key");
    reveal_strlit("Num");
    reveal_strlit("F");
    assert(!has_prefix("F3"@, "Key"@));
    assert(!has_prefix("F3"@, "Num"@));
    assert("F3"@.subrange(0, 1) =~= "F"@);
    reveal_with_fuel(decimal, 3);
    assert("F3"@.subrange(1, "F3"@.len() as int) =~= decimal(3nat));
    lemma_decimal_parses(3u32);
    lemma_plain_token_normalized("F3"@);
}

proof fn lemma_vk_f4()
    ensures
        vk_of("F4"@) == Some(115u32),
        normalized("F4"@) == Some("F4"@),
{
    reveal_strlit("F4");
    reveal_strlit("Key");
    reveal_strlit("Num");
    reveal_strlit("F");
    assert(!has_prefix("F4"@, "Key"@));
    assert(!has_prefix("F4"@, "Num"@));
    assert("F4"@.subrange(0, 1) =~= "F"@);
    reveal_with_fuel(decimal, 3);
    assert("F4"@.subrange(1, "F4"@.len() as int) =~= decimal(4nat));
    lemma_decimal_parses(4u32);
    lemma_plain_token_normalized("F4"@);
}

proof fn lemma_vk_f5()
    ensures
        vk_of("F5"@) == Some(116u32),
        normalized("F5"@) == Some("F5"@),
{
    reveal_strlit("F5");
    reveal_strlit("Key");
    reveal_strlit("Num");
    reveal_strlit("F");
    assert(!has_prefix("F5"@, "Key"@));
    assert(!has_prefix("F5"@, "Num"@));
    assert("F5"@.subrange(0, 1) =~= "F"@);
    reveal_with_fuel(decimal, 3);
    assert("F5"@.subrange(1, "F5"@.len() as int) =~= decimal(5nat));
    lemma_decimal_parses(5u32);
    lemma_plain_token_normalized("F5"@);
}

proof fn lemma_vk_f6()
    ensures
        vk_of("F6"@) == Some(117u32),
        normalized("F6"@) == Some("F6"@),
{
    reveal_strlit("F6");
    reveal_strlit("Key");
    reveal_strlit("Num");
    reveal_strlit("F");
    assert(!has_prefix("F6"@, "Key"@));
    assert(!has_prefix("F6"@, "Num"@));
    assert("F6"@.subrange(0, 1) =~= "F"@);
    reveal_with_fuel(decimal, 3);
    assert("F6"@.subrange(1, "F6"@.len() as int) =~= decimal(6nat));
    lemma_decimal_parses(6u32);
    lemma_plain_token_normalized("F6"@);
}

proof fn lemma_vk_f7()
    ensures
        vk_of("F7"@) == Some(118u32),
        normalized("F7"@) == Some("F7"@),
{
    reveal_strlit("F7");
    reveal_strlit("Key");
    reveal_strlit("Num");
    reveal_strlit("F");
    assert(!has_prefix("F7"@, "Key"@));
    assert(!has_prefix("F7"@, "Num"@));
    assert("F7"@.subrange(0, 1) =~= "F"@);
    reveal_with_fuel(decimal, 3);
    assert("F7"@.subrange(1, "F7"@.len() as int) =~= decimal(7nat));
    lemma_decimal_parses(7u32);
    lemma_plain_token_normalized("F7"@);
}

proof fn lemma_vk_f8()
    ensures
        vk_of("F8"@) == Some(119u32),
        normalized("F8"@) == Some("F8"@),
{
    reveal_strlit("F8");
    reveal_strlit("Key");
    reveal_strlit("Num");
    reveal_strlit("F");
    assert(!has_prefix("F8"@, "Key"@));
    assert(!has_prefix("F8"@, "Num"@));
    assert("F8"@.subrange(0, 1) =~= "F"@);
    reveal_with_fuel(decimal, 3);
    assert("F8"@.subrange(1, "F8"@.len() as int) =~= decimal(8nat));
    lemma_decimal_parses(8u32);
    lemma_plain_token_normalized("F8"@);
}

proof fn lemma_vk_f9()
    ensures
        vk_of("F9"@) == Some(120u32),
        normalized("F9"@) == Some("F9"@),
{
    reveal_strlit("F9");
    reveal_strlit("Key");
    reveal_strlit("Num");
    reveal_strlit("F");
    assert(!has_prefix("F9"@, "Key"@));
    assert(!has_prefix("F9"@, "Num"@));
    assert("F9"@.subrange(0, 1) =~= "F"@);
    reveal_with_fuel(decimal, 3);
    assert("F9"@.subrange(1, "F9"@.len() as int) =~= decimal(9nat));
    lemma_decimal_parses(9u32);
    lemma_plain_token_normalized("F9"@);
}

proof fn lemma_vk_f10()
    ensures
        vk_of("F10"@) == Some(121u32),
        normalized("F10"@) == Some("F10"@),
{
    reveal_strlit("F10");
    reveal_strlit("Key");
    reveal_strlit("Num");
    reveal_strlit("F");
    assert(!has_prefix("F10"@, "Key"@)) by { assert("F10"@.subrange(0, 3)[0] != "Key"@[0]); }
    assert(!has_prefix("F10"@, "Num"@)) by { assert("F10"@.subrange(0, 3)[0] != "Num"@[0]); }
    assert("F10"@.subrange(0, 1) =~= "F"@);
    reveal_with_fuel(decimal, 3);
    assert("F10"@.subrange(1, "F10"@.len() as int) =~= decimal(10nat));
    lemma_decimal_parses(10u32);
    lemma_plain_token_normalized("F10"@);
}

proof fn lemma_vk_f11()
    ensures
        vk_of("F11"@) == Some(122u32),
        normalized("F11"@) == Some("F11"@),
{
    reveal_strlit("F11");
    reveal_strlit("Key");
    reveal_strlit("Num");
    reveal_strlit("F");
    assert(!has_prefix("F11"@, "Key"@)) by { assert("F11"@.subrange(0, 3)[0] != "Key"@[0]); }
    assert(!has_prefix("F11"@, "Num"@)) by { assert("F11"@.subrange(0, 3)[0] != "Num"@[0]); }
    assert("F11"@.subrange(0, 1) =~= "F"@);
    reveal_with_fuel(decimal, 3);
    assert("F11"@.subrange(1, "F11"@.len() as int) =~= decimal(11nat));
    lemma_decimal_parses(11u32);
    lemma_plain_token_normalized("F11"@);
}

proof fn lemma_vk_f12()
    ensures
        vk_of("F12"@) == Some(123u32),
        normalized("F12"@) == Some("F12"@),
{
    reveal_strlit("F12");
    reveal_strlit("Key");
    reveal_strlit("Num");
    reveal_strlit("F");
    assert(!has_prefix("F12"@, "Key"@)) by { assert("F12"@.subrange(0, 3)[0] != "Key"@[0]); }
    assert(!has_prefix("F12"@, "Num"@)) by { assert("F12"@.subrange(0, 3)[0] != "Num"@[0]); }
    assert("F12"@.subrange(0, 1) =~= "F"@);
    reveal_with_fuel(decimal, 3);
    assert("F12"@.subrange(1, "F12"@.len() as int) =~= decimal(12nat));
    lemma_decimal_parses(12u32);
    lemma_plain_token_normalized("F12"@);
}

proof fn lemma_vk_control_left()
    ensures
        vk_of("ControlLeft"@) is None,
        normalized("ControlLeft"@) == Some("ControlLeft"@),
{
    reveal_strlit("ControlLeft");
    reveal_strlit("Key");
    reveal_strlit("Num");
    reveal_strlit("F");
    assert(!has_prefix("ControlLeft"@, "Key"@)) by { assert("ControlLeft"@.subrange(0, 3)[0] != "Key"@[0]); }
    assert(!has_prefix("ControlLeft"@, "Num"@)) by { assert("ControlLeft"@.subrange(0, 3)[0] != "Num"@[0]); }
    assert(!has_prefix("ControlLeft"@, "F"@)) by { assert("ControlLeft"@.subrange(0, 1)[0] != "F"@[0]); }
    reveal_strlit("Space");
    assert("ControlLeft"@.len() != "Space"@.len());
    reveal_strlit("Tab");
    assert("ControlLeft"@.len() != "Tab"@.len());
    reveal_strlit("Backspace");
    assert("ControlLeft"@.len() != "Backspace"@.len());
    reveal_strlit("Return");
    assert("ControlLeft"@.len() != "Return"@.len());
    reveal_strlit("Escape");
    assert("ControlLeft"@.len() != "Escape"@.len());
    reveal_strlit("CapsLock");
    assert("ControlLeft"@.len() != "CapsLock"@.len());
    reveal_strlit("NumLock");
    assert("ControlLeft"@.len() != "NumLock"@.len());
    reveal_strlit("ScrollLock");
    assert("ControlLeft"@.len() != "ScrollLock"@.len());
    reveal_strlit("PrintScreen");
    assert("ControlLeft"@[0] != "PrintScreen"@[0]);
    reveal_strlit("Pause");
    assert("ControlLeft"@.len() != "Pause"@.len());
    reveal_strlit("Menu");
    assert("ControlLeft"@.len() != "Menu"@.len());
    reveal_strlit("MetaLeft");
    assert("ControlLeft"@.len() != "MetaLeft"@.len());
    reveal_strlit("MetaRight");
    assert("ControlLeft"@.len() != "MetaRight"@.len());
    reveal_strlit("Command");
    assert("ControlLeft"@.len() != "Command"@.len());
    reveal_strlit("Super");
    assert("ControlLeft"@.len() != "Super"@.len());
    reveal_strlit("Win");
    assert("ControlLeft"@.len() != "Win"@.len());
    reveal_strlit("Insert");
    assert("ControlLeft"@.len() != "Insert"@.len());
    reveal_strlit("Delete");
    assert("ControlLeft"@.len() != "Delete"@.len());
    reveal_strlit("Home");
    assert("ControlLeft"@.len() != "Home"@.len());
    reveal_strlit("End");
    assert("ControlLeft"@.len() != "End"@.len());
    reveal_strlit("PageUp");
    assert("ControlLeft"@.len() != "PageUp"@.len());
    reveal_strlit("PageDown");
    assert("ControlLeft"@.len() != "PageDown"@.len());
    reveal_strlit("UpArrow");
    assert("ControlLeft"@.len() != "UpArrow"@.len());
    reveal_strlit("DownArrow");
    assert("ControlLeft"@.len() != "DownArrow"@.len());
    reveal_strlit("LeftArrow");
    assert("ControlLeft"@.len() != "LeftArrow"@.len());
    reveal_strlit("RightArrow");
    assert("ControlLeft"@.len() != "RightArrow"@.len());
    reveal_strlit("Minus");
    assert("ControlLeft"@.len() != "Minus"@.len());
    reveal_strlit("Equal");
    assert("ControlLeft"@.len() != "Equal"@.len());
    reveal_strlit("Comma");
    assert("ControlLeft"@.len() != "Comma"@.len());
    reveal_strlit("Period");
    assert("ControlLeft"@.len() != "Period"@.len());
    reveal_strlit("Slash");
    assert("ControlLeft"@.len() != "Slash"@.len());
    reveal_strlit("BackSlash");
    assert("ControlLeft"@.len() != "BackSlash"@.len());
    reveal_strlit("Apostrophe");
    assert("ControlLeft"@.len() != "Apostrophe"@.len());
    reveal_strlit("Quote");
    assert("ControlLeft"@.len() != "Quote"@.len());
    reveal_strlit("Semicolon");
    assert("ControlLeft"@.len() != "Semicolon"@.len());
    reveal_strlit("Grave");
    assert("ControlLeft"@.len() != "Grave"@.len());
    reveal_strlit("Backquote");
    assert("ControlLeft"@.len() != "Backquote"@.len());
    reveal_strlit("BracketLeft");
    assert("ControlLeft"@[0] != "BracketLeft"@[0]);
    reveal_strlit("BracketRight");
    assert("ControlLeft"@.len() != "BracketRight"@.len());
    lemma_plain_token_normalized("ControlLeft"@);
}

proof fn lemma_vk_shift_left()
    ensures
        vk_of("ShiftLeft"@) is None,
        normalized("ShiftLeft"@) == Some("ShiftLeft"@),
{
    reveal_strlit("ShiftLeft");
    reveal_strlit("Key");
    reveal_strlit("Num");
    reveal_strlit("F");
    assert(!has_prefix("ShiftLeft"@, "Key"@)) by { assert("ShiftLeft"@.subrange(0, 3)[0] != "Key"@[0]); }
    assert(!has_prefix("ShiftLeft"@, "Num"@)) by { assert("ShiftLeft"@.subrange(0, 3)[0] != "Num"@[0]); }
    assert(!has_prefix("ShiftLeft"@, "F"@)) by { assert("ShiftLeft"@.subrange(0, 1)[0] != "F"@[0]); }
    reveal_strlit("Space");
    assert("ShiftLeft"@.len() != "Space"@.len());
    reveal_strlit("Tab");
    assert("ShiftLeft"@.len() != "Tab"@.len());
    reveal_strlit("Backspace");
    assert("ShiftLeft"@[0] != "Backspace"@[0]);
    reveal_strlit("Return");
    assert("ShiftLeft"@.len() != "Return"@.len());
    reveal_strlit("Escape");
    assert("ShiftLeft"@.len() != "Escape"@.len());
    reveal_strlit("CapsLock");
    assert("ShiftLeft"@.len() != "CapsLock"@.len());
    reveal_strlit("NumLock");
    assert("ShiftLeft"@.len() != "NumLock"@.len());
    reveal_strlit("ScrollLock");
    assert("ShiftLeft"@.len() != "ScrollLock"@.len());
    reveal_strlit("PrintScreen");
    assert("ShiftLeft"@.len() != "PrintScreen"@.len());
    reveal_strlit("Pause");
    assert("ShiftLeft"@.len() != "Pause"@.len());
    reveal_strlit("Menu");
    assert("ShiftLeft"@.len() != "Menu"@.len());
    reveal_strlit("MetaLeft");
    assert("ShiftLeft"@.len() != "MetaLeft"@.len());
    reveal_strlit("MetaRight");
    assert("ShiftLeft"@[0] != "MetaRight"@[0]);
    reveal_strlit("Command");
    assert("ShiftLeft"@.len() != "Command"@.len());
    reveal_strlit("Super");
    assert("ShiftLeft"@.len() != "Super"@.len());
    reveal_strlit("Win");
    assert("ShiftLeft"@.len() != "Win"@.len());
    reveal_strlit("Insert");
    assert("ShiftLeft"@.len() != "Insert"@.len());
    reveal_strlit("Delete");
    assert("ShiftLeft"@.len() != "Delete"@.len());
    reveal_strlit("Home");
    assert("ShiftLeft"@.len() != "Home"@.len());
    reveal_strlit("End");
    assert("ShiftLeft"@.len() != "End"@.len());
    reveal_strlit("PageUp");
    assert("ShiftLeft"@.len() != "PageUp"@.len());
    reveal_strlit("PageDown");
    assert("ShiftLeft"@.len() != "PageDown"@.len());
    reveal_strlit("UpArrow");
    assert("ShiftLeft"@.len() != "UpArrow"@.len());
    reveal_strlit("DownArrow");
    assert("ShiftLeft"@[0] != "DownArrow"@[0]);
    reveal_strlit("LeftArrow");
    assert("ShiftLeft"@[0] != "LeftArrow"@[0]);
    reveal_strlit("RightArrow");
    assert("ShiftLeft"@.len() != "RightArrow"@.len());
    reveal_strlit("Minus");
    assert("ShiftLeft"@.len() != "Minus"@.len());
    reveal_strlit("Equal");
    assert("ShiftLeft"@.len() != "Equal"@.len());
    reveal_strlit("Comma");
    assert("ShiftLeft"@.len() != "Comma"@.len());
    reveal_strlit("Period");
    assert("ShiftLeft"@.len() != "Period"@.len());
    reveal_strlit("Slash");
    assert("ShiftLeft"@.len() != "Slash"@.len());
    reveal_strlit("BackSlash");
    assert("ShiftLeft"@[0] != "BackSlash"@[0]);
    reveal_strlit("Apostrophe");
    assert("ShiftLeft"@.len() != "Apostrophe"@.len());
    reveal_strlit("Quote");
    assert("ShiftLeft"@.len() != "Quote"@.len());
    reveal_strlit("Semicolon");
    assert("ShiftLeft"@[1] != "Semicolon"@[1]);
    reveal_strlit("Grave");
    assert("ShiftLeft"@.len() != "Grave"@.len());
    reveal_strlit("Backquote");
    assert("ShiftLeft"@[0] != "Backquote"@[0]);
    reveal_strlit("BracketLeft");
    assert("ShiftLeft"@.len() != "BracketLeft"@.len());
    reveal_strlit("BracketRight");
    assert("ShiftLeft"@.len() != "BracketRight"@.len());
    lemma_plain_token_normalized("ShiftLeft"@);
}

proof fn lemma_vk_shift_right()
    ensures
        vk_of("ShiftRight"@) is None,
        normalized("ShiftRight"@) == Some("ShiftRight"@),
{
    reveal_strlit("ShiftRight");
    reveal_strlit("Key");
    reveal_strlit("Num");
    reveal_strlit("F");
    assert(!has_prefix("ShiftRight"@, "Key"@)) by { assert("ShiftRight"@.subrange(0, 3)[0] != "Key"@[0]); }
    assert(!has_prefix("ShiftRight"@, "Num"@)) by { assert("ShiftRight"@.subrange(0, 3)[0] != "Num"@[0]); }
    assert(!has_prefix("ShiftRight"@, "F"@)) by { assert("ShiftRight"@.subrange(0, 1)[0] != "F"@[0]); }
    reveal_strlit("Space");
    assert("ShiftRight"@.len() != "Space"@.len());
    reveal_strlit("Tab");
    assert("ShiftRight"@.len() != "Tab"@.len());
    reveal_strlit("Backspace");
    assert("ShiftRight"@.len() != "Backspace"@.len());
    reveal_strlit("Return");
    assert("ShiftRight"@.len() != "Return"@.len());
    reveal_strlit("Escape");
    assert("ShiftRight"@.len() != "Escape"@.len());
    reveal_strlit("CapsLock");
    assert("ShiftRight"@.len() != "CapsLock"@.len());
    reveal_strlit("NumLock");
    assert("ShiftRight"@.len() != "NumLock"@.len());
    reveal_strlit("ScrollLock");
    assert("ShiftRight"@[1] != "ScrollLock"@[1]);
    reveal_strlit("PrintScreen");
    assert("ShiftRight"@.len() != "PrintScreen"@.len());
    reveal_strlit("Pause");
    assert("ShiftRight"@.len() != "Pause"@.len());
    reveal_strlit("Menu");
    assert("ShiftRight"@.len() != "Menu"@.len());
    reveal_strlit("MetaLeft");
    assert("ShiftRight"@.len() != "MetaLeft"@.len());
    reveal_strlit("MetaRight");
    assert("ShiftRight"@.len() != "MetaRight"@.len());
    reveal_strlit("Command");
    assert("ShiftRight"@.len() != "Command"@.len());
    reveal_strlit("Super");
    assert("ShiftRight"@.len() != "Super"@.len());
    reveal_strlit("Win");
    assert("ShiftRight"@.len() != "Win"@.len());
    reveal_strlit("Insert");
    assert("ShiftRight"@.len() != "Insert"@.len());
    reveal_strlit("Delete");
    assert("ShiftRight"@.len() != "Delete"@.len());
    reveal_strlit("Home");
    assert("ShiftRight"@.len() != "Home"@.len());
    reveal_strlit("End");
    assert("ShiftRight"@.len() != "End"@.len());
    reveal_strlit("PageUp");
    assert("ShiftRight"@.len() != "PageUp"@.len());
    reveal_strlit("PageDown");
    assert("ShiftRight"@.len() != "PageDown"@.len());
    reveal_strlit("UpArrow");
    assert("ShiftRight"@.len() != "UpArrow"@.len());
    reveal_strlit("DownArrow");
    assert("ShiftRight"@.len() != "DownArrow"@.len());
    reveal_strlit("LeftArrow");
    assert("ShiftRight"@.len() != "LeftArrow"@.len());
    reveal_strlit("RightArrow");
    assert("ShiftRight"@[0] != "RightArrow"@[0]);
    reveal_strlit("Minus");
    assert("ShiftRight"@.len() != "Minus"@.len());
    reveal_strlit("Equal");
    assert("ShiftRight"@.len() != "Equal"@.len());
    reveal_strlit("Comma");
    assert("ShiftRight"@.len() != "Comma"@.len());
    reveal_strlit("Period");
    assert("ShiftRight"@.len() != "Period"@.len());
    reveal_strlit("Slash");
    assert("ShiftRight"@.len() != "Slash"@.len());
    reveal_strlit("BackSlash");
    assert("ShiftRight"@.len() != "BackSlash"@.len());
    reveal_strlit("Apostrophe");
    assert("ShiftRight"@[0] != "Apostrophe"@[0]);
    reveal_strlit("Quote");
    assert("ShiftRight"@.len() != "Quote"@.len());
    reveal_strlit("Semicolon");
    assert("ShiftRight"@.len() != "Semicolon"@.len());
    reveal_strlit("Grave");
    assert("ShiftRight"@.len() != "Grave"@.len());
    reveal_strlit("Backquote");
    assert("ShiftRight"@.len() != "Backquote"@.len());
    reveal_strlit("BracketLeft");
    assert("ShiftRight"@.len() != "BracketLeft"@.len());
    reveal_strlit("BracketRight");
    assert("ShiftRight"@.len() != "BracketRight"@.len());
    lemma_plain_token_normalized("ShiftRight"@);
}

proof fn lemma_vk_alt()
    ensures
        vk_of("Alt"@) is None,
        normalized("Alt"@) == Some("Alt"@),
{
    reveal_strlit("Alt");
    reveal_strlit("Key");
    reveal_strlit("Num");
    reveal_strlit("F");
    assert(!has_prefix("Alt"@, "Key"@)) by { assert("Alt"@.subrange(0, 3)[0] != "Key"@[0]); }
    assert(!has_prefix("Alt"@, "Num"@)) by { assert("Alt"@.subrange(0, 3)[0] != "Num"@[0]); }
    assert(!has_prefix("Alt"@, "F"@)) by { assert("Alt"@.subrange(0, 1)[0] != "F"@[0]); }
    reveal_strlit("Space");
    assert("Alt"@.len() != "Space"@.len());
    reveal_strlit("Tab");
    assert("Alt"@[0] != "Tab"@[0]);
    reveal_strlit("Backspace");
    assert("Alt"@.len() != "Backspace"@.len());
    reveal_strlit("Return");
    assert("Alt"@.len() != "Return"@.len());
    reveal_strlit("Escape");
    assert("Alt"@.len() != "Escape"@.len());
    reveal_strlit("CapsLock");
    assert("Alt"@.len() != "CapsLock"@.len());
    reveal_strlit("NumLock");
    assert("Alt"@.len() != "NumLock"@.len());
    reveal_strlit("ScrollLock");
    assert("Alt"@.len() != "ScrollLock"@.len());
    reveal_strlit("PrintScreen");
    assert("Alt"@.len() != "PrintScreen"@.len());
    reveal_strlit("Pause");
    assert("Alt"@.len() != "Pause"@.len());
    reveal_strlit("Menu");
    assert("Alt"@.len() != "Menu"@.len());
    reveal_strlit("MetaLeft");
    assert("Alt"@.len() != "MetaLeft"@.len());
    reveal_strlit("MetaRight");
    assert("Alt"@.len() != "MetaRight"@.len());
    reveal_strlit("Command");
    assert("Alt"@.len() != "Command"@.len());
    reveal_strlit("Super");
    assert("Alt"@.len() != "Super"@.len());
    reveal_strlit("Win");
    assert("Alt"@[0] != "Win"@[0]);
    reveal_strlit("Insert");
    assert("Alt"@.len() != "Insert"@.len());
    reveal_strlit("Delete");
    assert("Alt"@.len() != "Delete"@.len());
    reveal_strlit("Home");
    assert("Alt"@.len() != "Home"@.len());
    reveal_strlit("End");
    assert("Alt"@[0] != "End"@[0]);
    reveal_strlit("PageUp");
    assert("Alt"@.len() != "PageUp"@.len());
    reveal_strlit("PageDown");
    assert("Alt"@.len() != "PageDown"@.len());
    reveal_strlit("UpArrow");
    assert("Alt"@.len() != "UpArrow"@.len());
    reveal_strlit("DownArrow");
    assert("Alt"@.len() != "DownArrow"@.len());
    reveal_strlit("LeftArrow");
    assert("Alt"@.len() != "LeftArrow"@.len());
    reveal_strlit("RightArrow");
    assert("Alt"@.len() != "RightArrow"@.len());
    reveal_strlit("Minus");
    assert("Alt"@.len() != "Minus"@.len());
    reveal_strlit("Equal");
    assert("Alt"@.len() != "Equal"@.len());
    reveal_strlit("Comma");
    assert("Alt"@.len() != "Comma"@.len());
    reveal_strlit("Period");
    assert("Alt"@.len() != "Period"@.len());
    reveal_strlit("Slash");
    assert("Alt"@.len() != "Slash"@.len());
    reveal_strlit("BackSlash");
    assert("Alt"@.len() != "BackSlash"@.len());
    reveal_strlit("Apostrophe");
    assert("Alt"@.len() != "Apostrophe"@.len());
    reveal_strlit("Quote");
    assert("Alt"@.len() != "Quote"@.len());
    reveal_strlit("Semicolon");
    assert("Alt"@.len() != "Semicolon"@.len());
    reveal_strlit("Grave");
    assert("Alt"@.len() != "Grave"@.len());
    reveal_strlit("Backquote");
    assert("Alt"@.len() != "Backquote"@.len());
    reveal_strlit("BracketLeft");
    assert("Alt"@.len() != "BracketLeft"@.len());
    reveal_strlit("BracketRight");
    assert("Alt"@.len() != "BracketRight"@.len());
    lemma_plain_token_normalized("Alt"@);
}

proof fn lemma_vk_caps_lock()
    ensures
        vk_of("CapsLock"@) == Some(20u32),
        normalized("CapsLock"@) == Some("CapsLock"@),
{
    reveal_strlit("CapsLock");
    reveal_strlit("Key");
    reveal_strlit("Num");
    reveal_strlit("F");
    assert(!has_prefix("CapsLock"@, "Key"@)) by { assert("CapsLock"@.subrange(0, 3)[0] != "Key"@[0]); }
    assert(!has_prefix("CapsLock"@, "Num"@)) by { assert("CapsLock"@.subrange(0, 3)[0] != "Num"@[0]); }
    assert(!has_prefix("CapsLock"@, "F"@)) by { assert("CapsLock"@.subrange(0, 1)[0] != "F"@[0]); }
    reveal_strlit("Space");
    assert("CapsLock"@.len() != "Space"@.len());
    reveal_strlit("Tab");
    assert("CapsLock"@.len() != "Tab"@.len());
    reveal_strlit("Backspace");
    assert("CapsLock"@.len() != "Backspace"@.len());
    reveal_strlit("Return");
    assert("CapsLock"@.len() != "Return"@.len());
    reveal_strlit("Escape");
    assert("CapsLock"@.len() != "Escape"@.len());
    reveal_strlit("CapsLock");
    lemma_plain_token_normalized("CapsLock"@);
}

proof fn lemma_vk_control_right()
    ensures
        vk_of("ControlRight"@) is None,
        normalized("ControlRight"@) == Some("ControlRight"@),
{
    reveal_strlit("ControlRight");
    reveal_strlit("Key");
    reveal_strlit("Num");
    reveal_strlit("F");
    assert(!has_prefix("ControlRight"@, "Key"@)) by { assert("ControlRight"@.subrange(0, 3)[0] != "Key"@[0]); }
    assert(!has_prefix("ControlRight"@, "Num"@)) by { assert("ControlRight"@.subrange(0, 3)[0] != "Num"@[0]); }
    assert(!has_prefix("ControlRight"@, "F"@)) by { assert("ControlRight"@.subrange(0, 1)[0] != "F"@[0]); }
    reveal_strlit("Space");
    assert("ControlRight"@.len() != "Space"@.len());
    reveal_strlit("Tab");
    assert("ControlRight"@.len() != "Tab"@.len());
    reveal_strlit("Backspace");
    assert("ControlRight"@.len() != "Backspace"@.len());
    reveal_strlit("Return");
    assert("ControlRight"@.len() != "Return"@.len());
    reveal_strlit("Escape");
    assert("ControlRight"@.len() != "Escape"@.len());
    reveal_strlit("CapsLock");
    assert("ControlRight"@.len() != "CapsLock"@.len());
    reveal_strlit("NumLock");
    assert("ControlRight"@.len() != "NumLock"@.len());
    reveal_strlit("ScrollLock");
    assert("ControlRight"@.len() != "ScrollLock"@.len());
    reveal_strlit("PrintScreen");
    assert("ControlRight"@.len() != "PrintScreen"@.len());
    reveal_strlit("Pause");
    assert("ControlRight"@.len() != "Pause"@.len());
    reveal_strlit("Menu");
    assert("ControlRight"@.len() != "Menu"@.len());
    reveal_strlit("MetaLeft");
    assert("ControlRight"@.len() != "MetaLeft"@.len());
    reveal_strlit("MetaRight");
    assert("ControlRight"@.len() != "MetaRight"@.len());
    reveal_strlit("Command");
    assert("ControlRight"@.len() != "Command"@.len());
    reveal_strlit("Super");
    assert("ControlRight"@.len() != "Super"@.len());
    reveal_strlit("Win");
    assert("ControlRight"@.len() != "Win"@.len());
    reveal_strlit("Insert");
    assert("ControlRight"@.len() != "Insert"@.len());
    reveal_strlit("Delete");
    assert("ControlRight"@.len() != "Delete"@.len());
    reveal_strlit("Home");
    assert("ControlRight"@.len() != "Home"@.len());
    reveal_strlit("End");
    assert("ControlRight"@.len() != "End"@.len());
    reveal_strlit("PageUp");
    assert("ControlRight"@.len() != "PageUp"@.len());
    reveal_strlit("PageDown");
    assert("ControlRight"@.len() != "PageDown"@.len());
    reveal_strlit("UpArrow");
    assert("ControlRight"@.len() != "UpArrow"@.len());
    reveal_strlit("DownArrow");
    assert("ControlRight"@.len() != "DownArrow"@.len());
    reveal_strlit("LeftArrow");
    assert("ControlRight"@.len() != "LeftArrow"@.len());
    reveal_strlit("RightArrow");
    assert("ControlRight"@.len() != "RightArrow"@.len());
    reveal_strlit("Minus");
    assert("ControlRight"@.len() != "Minus"@.len());
    reveal_strlit("Equal");
    assert("ControlRight"@.len() != "Equal"@.len());
    reveal_strlit("Comma");
    assert("ControlRight"@.len() != "Comma"@.len());
    reveal_strlit("Period");
    assert("ControlRight"@.len() != "Period"@.len());
    reveal_strlit("Slash");
    assert("ControlRight"@.len() != "Slash"@.len());
    reveal_strlit("BackSlash");
    assert("ControlRight"@.len() != "BackSlash"@.len());
    reveal_strlit("Apostrophe");
    assert("ControlRight"@.len() != "Apostrophe"@.len());
    reveal_strlit("Quote");
    assert("ControlRight"@.len() != "Quote"@.len());
    reveal_strlit("Semicolon");
    assert("ControlRight"@.len() != "Semicolon"@.len());
    reveal_strlit("Grave");
    assert("ControlRight"@.len() != "Grave"@.len());
    reveal_strlit("Backquote");
    assert("ControlRight"@.len() != "Backquote"@.len());
    reveal_strlit("BracketLeft");
    assert("ControlRight"@.len() != "BracketLeft"@.len());
    reveal_strlit("BracketRight");
    assert("ControlRight"@[0] != "BracketRight"@[0]);
    lemma_plain_token_normalized("ControlRight"@);
}

proof fn lemma_vk_alt_gr()
    ensures
        vk_of("AltGr"@) is None,
        normalized("AltGr"@) == Some("AltGr"@),
{
    reveal_strlit("AltGr");
    reveal_strlit("Key");
    reveal_strlit("Num");
    reveal_strlit("F");
    assert(!has_prefix("AltGr"@, "Key"@)) by { assert("AltGr"@.subrange(0, 3)[0] != "Key"@[0]); }
    assert(!has_prefix("AltGr"@, "Num"@)) by { assert("AltGr"@.subrange(0, 3)[0] != "Num"@[0]); }
    assert(!has_prefix("AltGr"@, "F"@)) by { assert("AltGr"@.subrange(0, 1)[0] != "F"@[0]); }
    reveal_strlit("Space");
    assert("AltGr"@[0] != "Space"@[0]);
    reveal_strlit("Tab");
    assert("AltGr"@.len() != "Tab"@.len());
    reveal_strlit("Backspace");
    assert("AltGr"@.len() != "Backspace"@.len());
    reveal_strlit("Return");
    assert("AltGr"@.len() != "Return"@.len());
    reveal_strlit("Escape");
    assert("AltGr"@.len() != "Escape"@.len());
    reveal_strlit("CapsLock");
    assert("AltGr"@.len() != "CapsLock"@.len());
    reveal_strlit("NumLock");
    assert("AltGr"@.len() != "NumLock"@.len());
    reveal_strlit("ScrollLock");
    assert("AltGr"@.len() != "ScrollLock"@.len());
    reveal_strlit("PrintScreen");
    assert("AltGr"@.len() != "PrintScreen"@.len());
    reveal_strlit("Pause");
    assert("AltGr"@[0] != "Pause"@[0]);
    reveal_strlit("Menu");
    assert("AltGr"@.len() != "Menu"@.len());
    reveal_strlit("MetaLeft");
    assert("AltGr"@.len() != "MetaLeft"@.len());
    reveal_strlit("MetaRight");
    assert("AltGr"@.len() != "MetaRight"@.len());
    reveal_strlit("Command");
    assert("AltGr"@.len() != "Command"@.len());
    reveal_strlit("Super");
    assert("AltGr"@[0] != "Super"@[0]);
    reveal_strlit("Win");
    assert("AltGr"@.len() != "Win"@.len());
    reveal_strlit("Insert");
    assert("AltGr"@.len() != "Insert"@.len());
    reveal_strlit("Delete");
    assert("AltGr"@.len() != "Delete"@.len());
    reveal_strlit("Home");
    assert("AltGr"@.len() != "Home"@.len());
    reveal_strlit("End");
    assert("AltGr"@.len() != "End"@.len());
    reveal_strlit("PageUp");
    assert("AltGr"@.len() != "PageUp"@.len());
    reveal_strlit("PageDown");
    assert("AltGr"@.len() != "PageDown"@.len());
    reveal_strlit("UpArrow");
    assert("AltGr"@.len() != "UpArrow"@.len());
    reveal_strlit("DownArrow");
    assert("AltGr"@.len() != "DownArrow"@.len());
    reveal_strlit("LeftArrow");
    assert("AltGr"@.len() != "LeftArrow"@.len());
    reveal_strlit("RightArrow");
    assert("AltGr"@.len() != "RightArrow"@.len());
    reveal_strlit("Minus");
    assert("AltGr"@[0] != "Minus"@[0]);
    reveal_strlit("Equal");
    assert("AltGr"@[0] != "Equal"@[0]);
    reveal_strlit("Comma");
    assert("AltGr"@[0] != "Comma"@[0]);
    reveal_strlit("Period");
    assert("AltGr"@.len() != "Period"@.len());
    reveal_strlit("Slash");
    assert("AltGr"@[0] != "Slash"@[0]);
    reveal_strlit("BackSlash");
    assert("AltGr"@.len() != "BackSlash"@.len());
    reveal_strlit("Apostrophe");
    assert("AltGr"@.len() != "Apostrophe"@.len());
    reveal_strlit("Quote");
    assert("AltGr"@[0] != "Quote"@[0]);
    reveal_strlit("Semicolon");
    assert("AltGr"@.len() != "Semicolon"@.len());
    reveal_strlit("Grave");
    assert("AltGr"@[0] != "Grave"@[0]);
    reveal_strlit("Backquote");
    assert("AltGr"@.len() != "Backquote"@.len());
    reveal_strlit("BracketLeft");
    assert("AltGr"@.len() != "BracketLeft"@.len());
    reveal_strlit("BracketRight");
    assert("AltGr"@.len() != "BracketRight"@.len());
    lemma_plain_token_normalized("AltGr"@);
}

/// A token of letters and digits that starts with an uppercase letter
/// normalises to itself.
proof fn lemma_plain_token_normalized(t: Seq<char>)
    requires
        t.len() > 0,
        ('A' <= t[0] && t[0] <= 'Z'),
        forall|i: int| 0 <= i < t.len() ==> ('A' <= #[trigger] t[i] <= 'Z' || 'a' <= t[i] <= 'z' || '0' <= t[i] <= '9'),
    ensures
        normalized(t) == Some(t),
{
    lemma_plain_token(t);
    lemma_normalized_storable(t);
}

/// The key code of each window key's token.
pub open spec fn ui_vk(k: UiKey) -> u32 {
    match k {
        UiKey::A => 65u32,
        UiKey::B => 66u32,
        UiKey::C => 67u32,
        UiKey::D => 68u32,
        UiKey::E => 69u32,
        UiKey::F => 70u32,
        UiKey::G => 71u32,
        UiKey::H => 72u32,
        UiKey::I => 73u32,
        UiKey::J => 74u32,
        UiKey::K => 75u32,
        UiKey::L => 76u32,
        UiKey::M => 77u32,
        UiKey::N => 78u32,
        UiKey::O => 79u32,
        UiKey::P => 80u32,
        UiKey::Q => 81u32,
        UiKey::R => 82u32,
        UiKey::S => 83u32,
        UiKey::T => 84u32,
        UiKey::U => 85u32,
        UiKey::V => 86u32,
        UiKey::W => 87u32,
        UiKey::X => 88u32,
        UiKey::Y => 89u32,
        UiKey::Z => 90u32,
        UiKey::Num0 => 48u32,
        UiKey::Num1 => 49u32,
        UiKey::Num2 => 50u32,
        UiKey::Num3 => 51u32,
        UiKey::Num4 => 52u32,
        UiKey::Num5 => 53u32,
        UiKey::Num6 => 54u32,
        UiKey::Num7 => 55u32,
        UiKey::Num8 => 56u32,
        UiKey::Num9 => 57u32,
        UiKey::ArrowDown => 40u32,
        UiKey::ArrowLeft => 37u32,
        UiKey::ArrowRight => 39u32,
        UiKey::ArrowUp => 38u32,
        UiKey::Escape => 27u32,
        UiKey::Tab => 9u32,
        UiKey::Backspace => 8u32,
        UiKey::Enter => 13u32,
        UiKey::Space => 32u32,
        UiKey::Insert => 45u32,
        UiKey::Delete => 46u32,
        UiKey::Home => 36u32,
        UiKey::End => 35u32,
        UiKey::PageUp => 33u32,
        UiKey::PageDown => 34u32,
        UiKey::F1 => 112u32,
        UiKey::F2 => 113u32,
        UiKey::F3 => 114u32,
        UiKey::F4 => 115u32,
        UiKey::F5 => 116u32,
        UiKey::F6 => 117u32,
        UiKey::F7 => 118u32,
        UiKey::F8 => 119u32,
        UiKey::F9 => 120u32,
        UiKey::F10 => 121u32,
        UiKey::F11 => 122u32,
        UiKey::F12 => 123u32,
        UiKey::Other => 0u32,
    }
}

/// The window key of a key code (the inverse of `ui_vk`).
pub open spec fn ui_key_of_vk(v: u32) -> UiKey {
    match v {
        65u32 => UiKey::A,
        66u32 => UiKey::B,
        67u32 => UiKey::C,
        68u32 => UiKey::D,
        69u32 => UiKey::E,
        70u32 => UiKey::F,
        71u32 => UiKey::G,
        72u32 => UiKey::H,
        73u32 => UiKey::I,
        74u32 => UiKey::J,
        75u32 => UiKey::K,
        76u32 => UiKey::L,
        77u32 => UiKey::M,
        78u32 => UiKey::N,
        79u32 => UiKey::O,
        80u32 => UiKey::P,
        81u32 => UiKey::Q,
        82u32 => UiKey::R,
        83u32 => UiKey::S,
        84u32 => UiKey::T,
        85u32 => UiKey::U,
        86u32 => UiKey::V,
        87u32 => UiKey::W,
        88u32 => UiKey::X,
        89u32 => UiKey::Y,
        90u32 => UiKey::Z,
        48u32 => UiKey::Num0,
        49u32 => UiKey::Num1,
        50u32 => UiKey::Num2,
        51u32 => UiKey::Num3,
        52u32 => UiKey::Num4,
        53u32 => UiKey::Num5,
        54u32 => UiKey::Num6,
        55u32 => UiKey::Num7,
        56u32 => UiKey::Num8,
        57u32 => UiKey::Num9,
        40u32 => UiKey::ArrowDown,
        37u32 => UiKey::ArrowLeft,
        39u32 => UiKey::ArrowRight,
        38u32 => UiKey::ArrowUp,
        27u32 => UiKey::Escape,
        9u32 => UiKey::Tab,
        8u32 => UiKey::Backspace,
        13u32 => UiKey::Enter,
        32u32 => UiKey::Space,
        45u32 => UiKey::Insert,
        46u32 => UiKey::Delete,
        36u32 => UiKey::Home,
        35u32 => UiKey::End,
        33u32 => UiKey::PageUp,
        34u32 => UiKey::PageDown,
        112u32 => UiKey::F1,
        113u32 => UiKey::F2,
        114u32 => UiKey::F3,
        115u32 => UiKey::F4,
        116u32 => UiKey::F5,
        117u32 => UiKey::F6,
        118u32 => UiKey::F7,
        119u32 => UiKey::F8,
        120u32 => UiKey::F9,
        121u32 => UiKey::F10,
        122u32 => UiKey::F11,
        123u32 => UiKey::F12,
        _ => UiKey::Other,
    }
}

#[verifier::spinoff_prover]
proof fn lemma_ui_key(k: UiKey)
    ensures
        ui_token(k) matches Some(t) ==> vk_of(t) == Some(ui_vk(k)) && normalized(t) == Some(t),
        ui_key_of_vk(ui_vk(k)) == k,
{
    match k {
        UiKey::A => {
            lemma_vk_key_a();
        },
        UiKey::B => {
            lemma_vk_key_b();
        },
        UiKey::C => {
            lemma_vk_key_c();
        },
        UiKey::D => {
            lemma_vk_key_d();
        },
        UiKey::E => {
            lemma_vk_key_e();
        },
        UiKey::F => {
            lemma_vk_key_f();
        },
        UiKey::G => {
            lemma_vk_key_g();
        },
        UiKey::H => {
            lemma_vk_key_h();
        },
        UiKey::I => {
            lemma_vk_key_i();
        },
        UiKey::J => {
            lemma_vk_key_j();
        },
        UiKey::K => {
            lemma_vk_key_k();
        },
        UiKey::L => {
            lemma_vk_key_l();
        },
        UiKey::M => {
            lemma_vk_key_m();
        },
        UiKey::N => {
            lemma_vk_key_n();
        },
        UiKey::O => {
            lemma_vk_key_o();
        },
        UiKey::P => {
            lemma_vk_key_p();
        },
        UiKey::Q => {
            lemma_vk_key_q();
        },
        UiKey::R => {
            lemma_vk_key_r();
        },
        UiKey::S => {
            lemma_vk_key_s();
        },
        UiKey::T => {
            lemma_vk_key_t();
        },
        UiKey::U => {
            lemma_vk_key_u();
        },
        UiKey::V => {
            lemma_vk_key_v();
        },
        UiKey::W => {
            lemma_vk_key_w();
        },
        UiKey::X => {
            lemma_vk_key_x();
        },
        UiKey::Y => {
            lemma_vk_key_y();
        },
        UiKey::Z => {
            lemma_vk_key_z();
        },
        UiKey::Num0 => {
            lemma_vk_num0();
        },
        UiKey::Num1 => {
            lemma_vk_num1();
        },
        UiKey::Num2 => {
            lemma_vk_num2();
        },
        UiKey::Num3 => {
            lemma_vk_num3();
        },
        UiKey::Num4 => {
            lemma_vk_num4();
        },
        UiKey::Num5 => {
            lemma_vk_num5();
        },
        UiKey::Num6 => {
            lemma_vk_num6();
        },
        UiKey::Num7 => {
            lemma_vk_num7();
        },
        UiKey::Num8 => {
            lemma_vk_num8();
        },
        UiKey::Num9 => {
            lemma_vk_num9();
        },
        UiKey::ArrowDown => {
            lemma_vk_down_arrow();
        },
        UiKey::ArrowLeft => {
            lemma_vk_left_arrow();
        },
        UiKey::ArrowRight => {
            lemma_vk_right_arrow();
        },
        UiKey::ArrowUp => {
            lemma_vk_up_arrow();
        },
        UiKey::Escape => {
            lemma_vk_escape();
        },
        UiKey::Tab => {
            lemma_vk_tab();
        },
        UiKey::Backspace => {
            lemma_vk_backspace();
        },
        UiKey::Enter => {
            lemma_vk_return();
        },
        UiKey::Space => {
            lemma_vk_space();
        },
        UiKey::Insert => {
            lemma_vk_insert();
        },
        UiKey::Delete => {
            lemma_vk_delete();
        },
        UiKey::Home => {
            lemma_vk_home();
        },
        UiKey::End => {
            lemma_vk_end();
        },
        UiKey::PageUp => {
            lemma_vk_page_up();
        },
        UiKey::PageDown => {
            lemma_vk_page_down();
        },
        UiKey::F1 => {
            lemma_vk_f1();
        },
        UiKey::F2 => {
            lemma_vk_f2();
        },
        UiKey::F3 => {
            lemma_vk_f3();
        },
        UiKey::F4 => {
            lemma_vk_f4();
        },
        UiKey::F5 => {
            lemma_vk_f5();
        },
        UiKey::F6 => {
            lemma_vk_f6();
        },
        UiKey::F7 => {
            lemma_vk_f7();
        },
        UiKey::F8 => {
            lemma_vk_f8();
        },
        UiKey::F9 => {
            lemma_vk_f9();
        },
        UiKey::F10 => {
            lemma_vk_f10();
        },
        UiKey::F11 => {
            lemma_vk_f11();
        },
        UiKey::F12 => {
            lemma_vk_f12();
        },
        UiKey::Other => {},
    }
}

/// The window's key table: every key but `Other` has a token; each token has a
/// key code and normalises to itself; and two keys with the same token are the
/// same key.
pub proof fn law_ui_key_tokens(k1: UiKey, k2: UiKey)
    ensures
        (ui_token(k1) is None) == (k1 == UiKey::Other),
        ui_token(k1) matches Some(t) ==> vk_of(t) is Some && normalized(t) == Some(t),
        ui_token(k1) is Some && ui_token(k1) == ui_token(k2) ==> k1 == k2,
{
    lemma_ui_key(k1);
    lemma_ui_key(k2);
}

/// Every key code lies in `0x08..=0xDE` and is none of the generic Shift, Ctrl
/// and Alt codes `0x10..=0x12`.
pub proof fn law_vk_range(t: Seq<char>)
    ensures
        vk_of(t) matches Some(v) ==> 0x08 <= v <= 0xDE && !(0x10 <= v <= 0x12),
{
}

/// No modifier token has a key code.
pub proof fn law_modifiers_have_no_vk(t: Seq<char>)
    requires
        is_modifier_token(t),
    ensures
        vk_of(t) is None,
{
    lemma_vk_control_left();
    lemma_vk_control_right();
    lemma_vk_shift_left();
    lemma_vk_shift_right();
    lemma_vk_alt();
    lemma_vk_alt_gr();
}

/// The legacy key codes that have a token.
pub open spec fn is_legacy_code(c: i32) -> bool {
    ||| 2 <= c <= 11
    ||| 16 <= c <= 25
    ||| 29 <= c <= 38
    ||| c == 42
    ||| 44 <= c <= 50
    ||| c == 54
    ||| 56 <= c <= 68
    ||| c == 87
    ||| c == 88
}

/// A number that tells the legacy tokens apart: the key code, else a number
/// for each of the four modifier tokens among them.
pub open spec fn legacy_disc(t: Seq<char>) -> int {
    match vk_of(t) {
        Some(v) => v as int,
        None => if t == "ControlLeft"@ {
            1000
        } else if t == "ShiftLeft"@ {
            1001
        } else if t == "ShiftRight"@ {
            1002
        } else {
            1003
        },
    }
}

/// The legacy code of a `legacy_disc` number (its inverse on legacy tokens).
pub open spec fn legacy_code_of_disc(d: int) -> i32 {
    if d == 49 { 2i32 } else
    if d == 50 { 3i32 } else
    if d == 51 { 4i32 } else
    if d == 52 { 5i32 } else
    if d == 53 { 6i32 } else
    if d == 54 { 7i32 } else
    if d == 55 { 8i32 } else
    if d == 56 { 9i32 } else
    if d == 57 { 10i32 } else
    if d == 48 { 11i32 } else
    if d == 81 { 16i32 } else
    if d == 87 { 17i32 } else
    if d == 69 { 18i32 } else
    if d == 82 { 19i32 } else
    if d == 84 { 20i32 } else
    if d == 89 { 21i32 } else
    if d == 85 { 22i32 } else
    if d == 73 { 23i32 } else
    if d == 79 { 24i32 } else
    if d == 80 { 25i32 } else
    if d == 1000 { 29i32 } else
    if d == 65 { 30i32 } else
    if d == 83 { 31i32 } else
    if d == 68 { 32i32 } else
    if d == 70 { 33i32 } else
    if d == 71 { 34i32 } else
    if d == 72 { 35i32 } else
    if d == 74 { 36i32 } else
    if d == 75 { 37i32 } else
    if d == 76 { 38i32 } else
    if d == 1001 { 42i32 } else
    if d == 90 { 44i32 } else
    if d == 88 { 45i32 } else
    if d == 67 { 46i32 } else
    if d == 86 { 47i32 } else
    if d == 66 { 48i32 } else
    if d == 78 { 49i32 } else
    if d == 77 { 50i32 } else
    if d == 1002 { 54i32 } else
    if d == 1003 { 56i32 } else
    if d == 32 { 57i32 } else
    if d == 20 { 58i32 } else
    if d == 112 { 59i32 } else
    if d == 113 { 60i32 } else
    if d == 114 { 61i32 } else
    if d == 115 { 62i32 } else
    if d == 116 { 63i32 } else
    if d == 117 { 64i32 } else
    if d == 118 { 65i32 } else
    if d == 119 { 66i32 } else
    if d == 120 { 67i32 } else
    if d == 121 { 68i32 } else
    if d == 122 { 87i32 } else
    if d == 123 { 88i32 } else {
        0i32
    }
}

#[verifier::spinoff_prover]
proof fn lemma_legacy_code(c: i32)
    ensures
        (legacy_token(c) is Some) == is_legacy_code(c),
        legacy_token(c) matches Some(t) ==> {
            &&& legacy_code_of_disc(legacy_disc(t)) == c
            &&& normalized(t) == Some(t)
            &&& (vk_of(t) is Some || t == "ControlLeft"@ || t == "ShiftLeft"@ || t == "ShiftRight"@ || t == "Alt"@)
        },
{
    lemma_modifier_literals();
    match c {
        2 => {
            lemma_vk_num1();
        },
        3 => {
            lemma_vk_num2();
        },
        4 => {
            lemma_vk_num3();
        },
        5 => {
            lemma_vk_num4();
        },
        6 => {
            lemma_vk_num5();
        },
        7 => {
            lemma_vk_num6();
        },
        8 => {
            lemma_vk_num7();
        },
        9 => {
            lemma_vk_num8();
        },
        10 => {
            lemma_vk_num9();
        },
        11 => {
            lemma_vk_num0();
        },
        16 => {
            lemma_vk_key_q();
        },
        17 => {
            lemma_vk_key_w();
        },
        18 => {
            lemma_vk_key_e();
        },
        19 => {
            lemma_vk_key_r();
        },
        20 => {
            lemma_vk_key_t();
        },
        21 => {
            lemma_vk_key_y();
        },
        22 => {
            lemma_vk_key_u();
        },
        23 => {
            lemma_vk_key_i();
        },
        24 => {
            lemma_vk_key_o();
        },
        25 => {
            lemma_vk_key_p();
        },
        29 => {
            lemma_vk_control_left();
        },
        30 => {
            lemma_vk_key_a();
        },
        31 => {
            lemma_vk_key_s();
        },
        32 => {
            lemma_vk_key_d();
        },
        33 => {
            lemma_vk_key_f();
        },
        34 => {
            lemma_vk_key_g();
        },
        35 => {
            lemma_vk_key_h();
        },
        36 => {
            lemma_vk_key_j();
        },
        37 => {
            lemma_vk_key_k();
        },
        38 => {
            lemma_vk_key_l();
        },
        42 => {
            lemma_vk_shift_left();
        },
        44 => {
            lemma_vk_key_z();
        },
        45 => {
            lemma_vk_key_x();
        },
        46 => {
            lemma_vk_key_c();
        },
        47 => {
            lemma_vk_key_v();
        },
        48 => {
            lemma_vk_key_b();
        },
        49 => {
            lemma_vk_key_n();
        },
        50 => {
            lemma_vk_key_m();
        },
        54 => {
            lemma_vk_shift_right();
        },
        56 => {
            lemma_vk_alt();
        },
        57 => {
            lemma_vk_space();
        },
        58 => {
            lemma_vk_caps_lock();
        },
        59 => {
            lemma_vk_f1();
        },
        60 => {
            lemma_vk_f2();
        },
        61 => {
            lemma_vk_f3();
        },
        62 => {
            lemma_vk_f4();
        },
        63 => {
            lemma_vk_f5();
        },
        64 => {
            lemma_vk_f6();
        },
        65 => {
            lemma_vk_f7();
        },
        66 => {
            lemma_vk_f8();
        },
        67 => {
            lemma_vk_f9();
        },
        68 => {
            lemma_vk_f10();
        },
        87 => {
            lemma_vk_f11();
        },
        88 => {
            lemma_vk_f12();
        },
        _ => {},
    }
}

/// The legacy code table: a code has a token exactly when it is one of the 54
/// codes of `is_legacy_code` (all in `2..=88`); each token normalises to itself
/// and has a key code unless it is a modifier; and two codes with the same
/// token are the same code.
pub proof fn law_legacy_tokens(c1: i32, c2: i32)
    ensures
        (legacy_token(c1) is Some) == is_legacy_code(c1),
        legacy_token(c1) is Some ==> 2 <= c1 <= 88,
        legacy_token(c1) matches Some(t) ==> normalized(t) == Some(t)
            && (vk_of(t) is Some || t == "ControlLeft"@ || t == "ShiftLeft"@ || t == "ShiftRight"@ || t == "Alt"@),
        legacy_token(c1) is Some && legacy_token(c1) == legacy_token(c2) ==> c1 == c2,
{
    lemma_legacy_code(c1);
    lemma_legacy_code(c2);
}

/// The `i`-th legacy code, in increasing order.
pub open spec fn legacy_code_at(i: int) -> i32 {
    (if i < 10 {
        i + 2
    } else if i < 20 {
        i + 6
    } else if i < 30 {
        i + 9
    } else if i < 31 {
        i + 12
    } else if i < 38 {
        i + 13
    } else if i < 39 {
        i + 16
    } else if i < 52 {
        i + 17
    } else {
        i + 35
    }) as i32
}

/// The legacy codes that have a token, in increasing order.
pub open spec fn legacy_codes() -> Seq<i32> {
    Seq::new(54, |i: int| legacy_code_at(i))
}

/// Exactly 54 legacy codes have a token: they are `legacy_codes()`.
pub proof fn law_legacy_count()
    ensures
        Set::new(|c: i32| legacy_token(c) is Some) == legacy_codes().to_set(),
        legacy_codes().to_set().len() == 54,
{
    let s = legacy_codes();
    assert(s.no_duplicates()) by {
        assert forall|i: int, j: int| 0 <= i < s.len() && 0 <= j < s.len() && i != j implies s[i] != s[j] by {
            if i < j {
                assert(legacy_code_at(i) < legacy_code_at(j));
            } else {
                assert(legacy_code_at(j) < legacy_code_at(i));
            }
        }
    }
    s.unique_seq_to_set();
    assert forall|c: i32| (legacy_token(c) is Some) == s.to_set().contains(c) by {
        lemma_legacy_code(c);
        if is_legacy_code(c) {
            let i: int = if c <= 11 {
                c - 2
            } else if c <= 25 {
                c - 6
            } else if c <= 38 {
                c - 9
            } else if c == 42 {
                30
            } else if c <= 50 {
                c - 13
            } else if c == 54 {
                38
            } else if c <= 68 {
                c - 17
            } else {
                c - 35
            };
            assert(s[i] == c);
        }
        if s.to_set().contains(c) {
            let i = choose|i: int| 0 <= i < s.len() && s[i] == c;
            assert(is_legacy_code(legacy_code_at(i)));
        }
    }
    assert(Set::new(|c: i32| legacy_token(c) is Some) =~= s.to_set());
}

} // verus!
